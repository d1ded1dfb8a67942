use vstd::prelude::*;
use crate::ode_solvers::{first_step, is_trajectory1, is_trajectory2, second_step, solved1, solved2, SolveError};
use crate::rhs::{ConstantRate, FreezeFirst, FreezeSecond, Rhs1, Rhs2};
use crate::scalar::{divided, scaled, Scalar};
use crate::stepping::{combination, rk_step, slopes};
use crate::tableau::{terms_below, SolverMethod, TableauModel, Term};

verus! {

/// `z` is a zero for what a step does to slopes: it absorbs products and
/// integer scaling and division, and adding it changes nothing.
pub open spec fn acts_as_zero<S: Scalar>(z: S) -> bool {
    &&& forall|x: S| #[trigger] x.spec_times(z) == z
    &&& forall|x: S| #[trigger] x.spec_plus(z) == x
    &&& forall|n: i64| #[trigger] z.spec_scale(n) == z
    &&& forall|d: u64| d > 0 ==> #[trigger] z.spec_divide(d) == z
}

proof fn lemma_combination_of_equal<S: Scalar>(terms: Seq<Term>, ks: Seq<S>, z: S)
    requires
        acts_as_zero(z),
        terms.len() >= 1,
        terms_below(terms, ks.len() as int),
        forall|i: int| 0 <= i < ks.len() ==> ks[i] == z,
    ensures
        combination(terms, ks) == z,
    decreases terms.len(),
{
    if terms.len() > 1 {
        lemma_combination_of_equal(terms.drop_last(), ks, z);
        assert(terms[terms.len() - 1].stage < ks.len());
    } else {
        assert(terms[0].stage < ks.len());
    }
}

proof fn lemma_slopes_of_constant_field<S: Scalar, R: Rhs1<S>>(
    tab: TableauModel,
    f: R,
    t: S,
    h: S,
    y: S,
    a: S,
    n: nat,
)
    requires
        forall|s: S, v: S| #[trigger] f.rate(s, v) == a,
        n <= tab.n_stages(),
    ensures
        slopes(tab, f, t, h, y, n).len() == n,
        forall|i: int| 0 <= i < n ==> #[trigger] slopes(tab, f, t, h, y, n)[i] == h.spec_times(a),
    decreases n,
{
    if n > 1 {
        lemma_slopes_of_constant_field(tab, f, t, h, y, a, (n - 1) as nat);
    }
}

/// A step on a field that is zero everywhere leaves the state as it was, for
/// every method.
pub proof fn lemma_zero_field_step<S: Scalar, R: Rhs1<S>>(m: SolverMethod, f: R, t: S, h: S, y: S, z: S)
    requires
        acts_as_zero(z),
        forall|s: S, v: S| #[trigger] f.rate(s, v) == z,
    ensures
        rk_step(m.spec_tableau(), f, t, h, y) == y,
{
    let tab = m.spec_tableau();
    m.lemma_tableau_wf();
    lemma_slopes_of_constant_field(tab, f, t, h, y, z, tab.n_stages());
    let ks = slopes(tab, f, t, h, y, tab.n_stages());
    lemma_combination_of_equal(tab.weights, ks, z);
}

/// On `dy/dt = 0`, every method's trajectory stays at its initial value, over
/// any number of steps (one step included).
pub proof fn lemma_zero_field_constant1<S: Scalar>(
    m: SolverMethod,
    z: S,
    t: Seq<S>,
    h: S,
    y_0: S,
    n: nat,
    ys: Seq<S>,
)
    requires
        acts_as_zero(z),
        is_trajectory1(m.spec_tableau(), ConstantRate { value: z }, t, h, y_0, n, ys),
    ensures
        forall|i: int| 0 <= i <= n ==> #[trigger] ys[i] == y_0,
{
    let f = ConstantRate { value: z };
    assert forall|i: int| 0 <= i <= n implies #[trigger] ys[i] == y_0 by {
        lemma_trajectory1_constant(m, f, z, t, h, y_0, n, ys, i);
    }
}

proof fn lemma_trajectory1_constant<S: Scalar>(
    m: SolverMethod,
    f: ConstantRate<S>,
    z: S,
    t: Seq<S>,
    h: S,
    y_0: S,
    n: nat,
    ys: Seq<S>,
    i: int,
)
    requires
        acts_as_zero(z),
        f.value == z,
        is_trajectory1(m.spec_tableau(), f, t, h, y_0, n, ys),
        0 <= i <= n,
    ensures
        ys[i] == y_0,
    decreases i,
{
    if i > 0 {
        lemma_trajectory1_constant(m, f, z, t, h, y_0, n, ys, i - 1);
        lemma_zero_field_step(m, f, t[i - 1], h, ys[i - 1], z);
    }
}

proof fn lemma_trajectory2_constant<S: Scalar>(
    m: SolverMethod,
    f: ConstantRate<S>,
    z: S,
    t: Seq<S>,
    h: S,
    y1_0: S,
    y2_0: S,
    n: nat,
    ys1: Seq<S>,
    ys2: Seq<S>,
    i: int,
)
    requires
        acts_as_zero(z),
        f.value == z,
        is_trajectory2(m.spec_tableau(), f, f, t, h, y1_0, y2_0, n, ys1, ys2),
        0 <= i <= n,
    ensures
        ys1[i] == y1_0,
        ys2[i] == y2_0,
    decreases i,
{
    if i > 0 {
        lemma_trajectory2_constant(m, f, z, t, h, y1_0, y2_0, n, ys1, ys2, i - 1);
        let g1 = FreezeSecond { field: &f, second: ys2[i - 1] };
        let g2 = FreezeFirst { field: &f, first: ys1[i] };
        lemma_zero_field_step(m, g1, t[i - 1], h, ys1[i - 1], z);
        lemma_zero_field_step(m, g2, t[i - 1], h, ys2[i - 1], z);
        assert(ys1[i] == first_step(m.spec_tableau(), f, t[i - 1], h, ys1[i - 1], ys2[i - 1]));
        assert(ys2[i] == second_step(m.spec_tableau(), f, t[i - 1], h, ys1[i], ys2[i - 1]));
    }
}

/// On `dy1/dt = 0`, `dy2/dt = 0`, both trajectories of every method stay at
/// their initial values, over any number of steps.
pub proof fn lemma_zero_field_constant2<S: Scalar>(
    m: SolverMethod,
    z: S,
    t: Seq<S>,
    h: S,
    y1_0: S,
    y2_0: S,
    n: nat,
    ys1: Seq<S>,
    ys2: Seq<S>,
)
    requires
        acts_as_zero(z),
        is_trajectory2(
            m.spec_tableau(),
            ConstantRate { value: z },
            ConstantRate { value: z },
            t,
            h,
            y1_0,
            y2_0,
            n,
            ys1,
            ys2,
        ),
    ensures
        forall|i: int| 0 <= i <= n ==> #[trigger] ys1[i] == y1_0 && ys2[i] == y2_0,
{
    let f = ConstantRate { value: z };
    assert forall|i: int| 0 <= i <= n implies #[trigger] ys1[i] == y1_0 && ys2[i] == y2_0 by {
        lemma_trajectory2_constant(m, f, z, t, h, y1_0, y2_0, n, ys1, ys2, i);
    }
}

/// With Forward Euler, the second state's step reads the first state's new
/// value: where `dy2/dt = y1`, `y2[i + 1] = y2[i] + h * y1[i + 1]`.
pub proof fn lemma_euler_second_state_reads_new_first<S: Scalar, F: Rhs2<S>, G: Rhs2<S>>(
    f1: F,
    f2: G,
    t: Seq<S>,
    h: S,
    y1_0: S,
    y2_0: S,
    n: nat,
    ys1: Seq<S>,
    ys2: Seq<S>,
)
    requires
        forall|s: S, a: S, b: S| #[trigger] f2.rate(s, a, b) == a,
        is_trajectory2(SolverMethod::ForwardEuler.spec_tableau(), f1, f2, t, h, y1_0, y2_0, n, ys1, ys2),
    ensures
        forall|i: int| 0 <= i < n ==> #[trigger] ys2[i + 1] == ys2[i].spec_plus(h.spec_times(ys1[i + 1])),
{
    let tab = SolverMethod::ForwardEuler.spec_tableau();
    assert forall|i: int| 0 <= i < n implies #[trigger] ys2[i + 1] == ys2[i].spec_plus(h.spec_times(ys1[i + 1])) by {
        let g = FreezeFirst { field: &f2, first: ys1[i + 1] };
        assert(ys2[i + 1] == second_step(tab, f2, t[i], h, ys1[i + 1], ys2[i]));
        let ks = slopes(tab, g, t[i], h, ys2[i], 1);
        assert(ks[0] == h.spec_times(ys1[i + 1]));
        assert(combination(tab.weights, ks) == ks[0]);
    }
}

/// A one-variable trajectory is determined by its inputs: two trajectories of
/// the same problem are equal point by point.
pub proof fn lemma_trajectory1_unique<S: Scalar, F: Rhs1<S>>(
    tab: TableauModel,
    f: F,
    t: Seq<S>,
    h: S,
    y_0: S,
    n: nat,
    ys: Seq<S>,
    zs: Seq<S>,
)
    requires
        is_trajectory1(tab, f, t, h, y_0, n, ys),
        is_trajectory1(tab, f, t, h, y_0, n, zs),
    ensures
        ys == zs,
{
    assert forall|i: int| 0 <= i <= n implies #[trigger] ys[i] == zs[i] by {
        lemma_trajectory1_agree(tab, f, t, h, y_0, n, ys, zs, i);
    }
    assert(ys =~= zs);
}

proof fn lemma_trajectory1_agree<S: Scalar, F: Rhs1<S>>(
    tab: TableauModel,
    f: F,
    t: Seq<S>,
    h: S,
    y_0: S,
    n: nat,
    ys: Seq<S>,
    zs: Seq<S>,
    i: int,
)
    requires
        is_trajectory1(tab, f, t, h, y_0, n, ys),
        is_trajectory1(tab, f, t, h, y_0, n, zs),
        0 <= i <= n,
    ensures
        ys[i] == zs[i],
    decreases i,
{
    if i > 0 {
        lemma_trajectory1_agree(tab, f, t, h, y_0, n, ys, zs, i - 1);
    }
}

/// A pair of two-variable trajectories is determined by its inputs: two
/// solutions of the same problem are equal point by point.
pub proof fn lemma_trajectory2_unique<S: Scalar, F: Rhs2<S>, G: Rhs2<S>>(
    tab: TableauModel,
    f1: F,
    f2: G,
    t: Seq<S>,
    h: S,
    y1_0: S,
    y2_0: S,
    n: nat,
    ys1: Seq<S>,
    ys2: Seq<S>,
    zs1: Seq<S>,
    zs2: Seq<S>,
)
    requires
        is_trajectory2(tab, f1, f2, t, h, y1_0, y2_0, n, ys1, ys2),
        is_trajectory2(tab, f1, f2, t, h, y1_0, y2_0, n, zs1, zs2),
    ensures
        ys1 == zs1,
        ys2 == zs2,
{
    assert forall|i: int| 0 <= i <= n implies #[trigger] ys1[i] == zs1[i] && ys2[i] == zs2[i] by {
        lemma_trajectory2_agree(tab, f1, f2, t, h, y1_0, y2_0, n, ys1, ys2, zs1, zs2, i);
    }
    assert(ys1 =~= zs1);
    assert(ys2 =~= zs2);
}

proof fn lemma_trajectory2_agree<S: Scalar, F: Rhs2<S>, G: Rhs2<S>>(
    tab: TableauModel,
    f1: F,
    f2: G,
    t: Seq<S>,
    h: S,
    y1_0: S,
    y2_0: S,
    n: nat,
    ys1: Seq<S>,
    ys2: Seq<S>,
    zs1: Seq<S>,
    zs2: Seq<S>,
    i: int,
)
    requires
        is_trajectory2(tab, f1, f2, t, h, y1_0, y2_0, n, ys1, ys2),
        is_trajectory2(tab, f1, f2, t, h, y1_0, y2_0, n, zs1, zs2),
        0 <= i <= n,
    ensures
        ys1[i] == zs1[i],
        ys2[i] == zs2[i],
    decreases i,
{
    if i > 0 {
        lemma_trajectory2_agree(tab, f1, f2, t, h, y1_0, y2_0, n, ys1, ys2, zs1, zs2, i - 1);
    }
}

/// Two solves of the same one-variable problem give the same result.
pub proof fn lemma_solve1_deterministic<S: Scalar, F: Rhs1<S>>(
    m: SolverMethod,
    f: F,
    h: S,
    n: nat,
    t: Seq<S>,
    y_0: S,
    r1: Result<Vec<S>, SolveError>,
    r2: Result<Vec<S>, SolveError>,
)
    requires
        solved1(m, f, h, n, t, y_0, r1),
        solved1(m, f, h, n, t, y_0, r2),
    ensures
        (match (r1, r2) {
            (Ok(ys), Ok(zs)) => ys@ == zs@,
            (Err(e1), Err(e2)) => e1 == e2,
            _ => false,
        }),
{
    if let (Ok(ys), Ok(zs)) = (r1, r2) {
        lemma_trajectory1_unique(m.spec_tableau(), f, t, h, y_0, n, ys@, zs@);
    }
}

/// Two solves of the same two-variable problem give the same result.
pub proof fn lemma_solve2_deterministic<S: Scalar, F: Rhs2<S>, G: Rhs2<S>>(
    m: SolverMethod,
    f1: F,
    f2: G,
    h: S,
    n: nat,
    t: Seq<S>,
    y1_0: S,
    y2_0: S,
    r1: Result<(Vec<S>, Vec<S>), SolveError>,
    r2: Result<(Vec<S>, Vec<S>), SolveError>,
)
    requires
        solved2(m, f1, f2, h, n, t, y1_0, y2_0, r1),
        solved2(m, f1, f2, h, n, t, y1_0, y2_0, r2),
    ensures
        (match (r1, r2) {
            (Ok((ys1, ys2)), Ok((zs1, zs2))) => ys1@ == zs1@ && ys2@ == zs2@,
            (Err(e1), Err(e2)) => e1 == e2,
            _ => false,
        }),
{
    if let (Ok((ys1, ys2)), Ok((zs1, zs2))) = (r1, r2) {
        lemma_trajectory2_unique(m.spec_tableau(), f1, f2, t, h, y1_0, y2_0, n, ys1@, ys2@, zs1@, zs2@);
    }
}

/// The operations compute exactly, as rational arithmetic does, with `zero`
/// as zero: addition is associative, multiplication commutative and
/// distributive, and scaling by integers adds up and divides back.
pub open spec fn exact_arithmetic<S: Scalar>(zero: S) -> bool {
    &&& forall|x: S, y: S, z: S| #[trigger] x.spec_plus(y).spec_plus(z) == x.spec_plus(y.spec_plus(z))
    &&& forall|x: S, y: S| #[trigger] x.spec_times(y) == y.spec_times(x)
    &&& forall|x: S, y: S, z: S|
        #[trigger] x.spec_times(y.spec_plus(z)) == x.spec_times(y).spec_plus(x.spec_times(z))
    &&& forall|x: S| #[trigger] x.spec_plus(zero) == x
    &&& forall|x: S| #[trigger] x.spec_times(zero) == zero
    &&& forall|x: S| #[trigger] x.spec_scale(1) == x
    &&& forall|x: S, m: i64, n: i64|
        i64::MIN <= m + n <= i64::MAX ==> #[trigger] x.spec_scale(m).spec_plus(x.spec_scale(n))
            == x.spec_scale((m + n) as i64)
    &&& forall|x: S, d: u64| 0 < d <= i64::MAX ==> #[trigger] x.spec_scale(d as i64).spec_divide(d) == x
}

/// The sum of the coefficients of `terms`.
pub open spec fn coef_sum(terms: Seq<Term>) -> int
    decreases terms.len(),
{
    if terms.len() == 0 {
        0
    } else {
        coef_sum(terms.drop_last()) + terms.last().coef
    }
}

proof fn lemma_combination_of_same<S: Scalar>(terms: Seq<Term>, ks: Seq<S>, k: S, zero: S)
    requires
        exact_arithmetic(zero),
        1 <= terms.len() <= 1000,
        terms_below(terms, ks.len() as int),
        forall|i: int| 0 <= i < terms.len() ==> -1000 <= #[trigger] terms[i].coef <= 1000,
        forall|i: int| 0 <= i < ks.len() ==> ks[i] == k,
    ensures
        -1000 * terms.len() <= coef_sum(terms) <= 1000 * terms.len(),
        combination(terms, ks) == k.spec_scale(coef_sum(terms) as i64),
    decreases terms.len(),
{
    let last = terms[terms.len() - 1];
    assert(last.stage < ks.len());
    assert(-1000 <= last.coef <= 1000);
    if terms.len() > 1 {
        let init = terms.drop_last();
        assert forall|i: int| 0 <= i < init.len() implies -1000 <= #[trigger] init[i].coef <= 1000 by {
            assert(init[i] == terms[i]);
        }
        lemma_combination_of_same(init, ks, k, zero);
        let c = coef_sum(init);
        assert(k.spec_scale(c as i64).spec_plus(k.spec_scale(last.coef)) == k.spec_scale((c + last.coef) as i64));
    } else {
        reveal_with_fuel(coef_sum, 2);
        assert(terms.drop_last().len() == 0);
        assert(coef_sum(terms) == last.coef);
    }
}

proof fn lemma_weights_sum_to_den(m: SolverMethod)
    ensures
        coef_sum(m.spec_tableau().weights) == m.spec_tableau().weight_den,
        m.spec_tableau().weights.len() <= 4,
        forall|i: int|
            0 <= i < m.spec_tableau().weights.len() ==> -1000 <= #[trigger] m.spec_tableau().weights[i].coef
                <= 1000,
{
    reveal_with_fuel(coef_sum, 5);
}

/// A step on a field with constant value `a` adds `h * a`, for every method,
/// when the arithmetic is exact.
pub proof fn lemma_constant_field_step<S: Scalar, R: Rhs1<S>>(
    m: SolverMethod,
    f: R,
    t: S,
    h: S,
    y: S,
    a: S,
    zero: S,
)
    requires
        exact_arithmetic(zero),
        forall|s: S, v: S| #[trigger] f.rate(s, v) == a,
    ensures
        rk_step(m.spec_tableau(), f, t, h, y) == y.spec_plus(h.spec_times(a)),
{
    let tab = m.spec_tableau();
    m.lemma_tableau_wf();
    lemma_weights_sum_to_den(m);
    lemma_slopes_of_constant_field(tab, f, t, h, y, a, tab.n_stages());
    let ks = slopes(tab, f, t, h, y, tab.n_stages());
    let k = h.spec_times(a);
    lemma_combination_of_same(tab.weights, ks, k, zero);
    let d = tab.weight_den;
    assert(combination(tab.weights, ks) == k.spec_scale(d as i64));
    assert(divided(k.spec_scale(d as i64), d) == k);
}

/// Every method is exact on a constant derivative: on `dy/dt = a` over the
/// grid `t[0] = 0`, `t[i] = t[i - 1] + h`, the trajectory is
/// `y[i] = y[0] + a * t[i]`, when the arithmetic is exact.
pub proof fn lemma_constant_field_exact<S: Scalar>(
    m: SolverMethod,
    a: S,
    zero: S,
    t: Seq<S>,
    h: S,
    y_0: S,
    n: nat,
    ys: Seq<S>,
)
    requires
        exact_arithmetic(zero),
        t.len() == n + 1,
        t[0] == zero,
        forall|i: int| 1 <= i <= n ==> #[trigger] t[i] == t[i - 1].spec_plus(h),
        is_trajectory1(m.spec_tableau(), ConstantRate { value: a }, t, h, y_0, n, ys),
    ensures
        forall|i: int| 0 <= i <= n ==> #[trigger] ys[i] == y_0.spec_plus(a.spec_times(t[i])),
{
    assert forall|i: int| 0 <= i <= n implies #[trigger] ys[i] == y_0.spec_plus(a.spec_times(t[i])) by {
        lemma_constant_field_exact_at(m, a, zero, t, h, y_0, n, ys, i);
    }
}

proof fn lemma_constant_field_exact_at<S: Scalar>(
    m: SolverMethod,
    a: S,
    zero: S,
    t: Seq<S>,
    h: S,
    y_0: S,
    n: nat,
    ys: Seq<S>,
    i: int,
)
    requires
        exact_arithmetic(zero),
        t.len() == n + 1,
        t[0] == zero,
        forall|j: int| 1 <= j <= n ==> #[trigger] t[j] == t[j - 1].spec_plus(h),
        is_trajectory1(m.spec_tableau(), ConstantRate { value: a }, t, h, y_0, n, ys),
        0 <= i <= n,
    ensures
        ys[i] == y_0.spec_plus(a.spec_times(t[i])),
    decreases i,
{
    if i > 0 {
        lemma_constant_field_exact_at(m, a, zero, t, h, y_0, n, ys, i - 1);
        lemma_constant_field_step(m, ConstantRate { value: a }, t[i - 1], h, ys[i - 1], a, zero);
        let p = a.spec_times(t[i - 1]);
        assert(ys[i] == y_0.spec_plus(p).spec_plus(h.spec_times(a)));
        assert(h.spec_times(a) == a.spec_times(h));
        assert(a.spec_times(t[i - 1].spec_plus(h)) == p.spec_plus(a.spec_times(h)));
    }
}

} // verus!
