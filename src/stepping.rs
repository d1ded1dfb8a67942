use vstd::prelude::*;
use crate::rhs::Rhs1;
use crate::scalar::{divide_by, divided, scale_by, scaled, Scalar};
use crate::tableau::{terms_below, Tableau, TableauModel, Term};

verus! {

/// `sum(coef * k[stage])` over `terms`, added up from left to right.
pub open spec fn combination<S: Scalar>(terms: Seq<Term>, ks: Seq<S>) -> S
    decreases terms.len(),
{
    if terms.len() <= 1 {
        scaled(ks[terms[0].stage as int], terms[0].coef)
    } else {
        combination(terms.drop_last(), ks).spec_plus(
            scaled(ks[terms.last().stage as int], terms.last().coef),
        )
    }
}

/// The first `n` stage slopes `k_0 .. k_(n-1)` of one step from `(t, y)`:
/// `k_j = h * f(t + c_j h, y + sum(a_jl * k_l))`.
pub open spec fn slopes<S: Scalar, R: Rhs1<S>>(
    tab: TableauModel,
    f: R,
    t: S,
    h: S,
    y: S,
    n: nat,
) -> Seq<S>
    decreases n,
{
    if n == 0 {
        seq![]
    } else if n == 1 {
        seq![h.spec_times(f.rate(t, y))]
    } else {
        let ks = slopes(tab, f, t, h, y, (n - 1) as nat);
        let st = tab.stages[n - 2];
        let tj = t.spec_plus(divided(scaled(h, st.node_num), st.node_den));
        let yj = y.spec_plus(divided(combination(st.terms, ks), st.den));
        ks.push(h.spec_times(f.rate(tj, yj)))
    }
}

/// One step of the scheme `tab` from `y` at time `t` with step size `h`:
/// `y + sum(b_j * k_j)`.
pub open spec fn rk_step<S: Scalar, R: Rhs1<S>>(tab: TableauModel, f: R, t: S, h: S, y: S) -> S {
    let ks = slopes(tab, f, t, h, y, tab.n_stages());
    y.spec_plus(divided(combination(tab.weights, ks), tab.weight_den))
}

proof fn lemma_combination_prefix<S: Scalar>(terms: Seq<Term>, ks: Seq<S>, i: int)
    requires
        1 <= i < terms.len(),
    ensures
        combination(terms.subrange(0, i + 1), ks) == combination(terms.subrange(0, i), ks).spec_plus(
            scaled(ks[terms[i].stage as int], terms[i].coef),
        ),
{
    assert(terms.subrange(0, i + 1).drop_last() =~= terms.subrange(0, i));
}

/// Computes `combination(terms@, ks@)`.
fn combine<S: Scalar>(terms: &Vec<Term>, ks: &Vec<S>) -> (r: S)
    requires
        terms@.len() >= 1,
        terms_below(terms@, ks@.len() as int),
    ensures
        r == combination(terms@, ks@),
{
    let first = terms[0];
    let mut acc = scale_by(ks[first.stage], first.coef);
    let mut i: usize = 1;
    assert(terms@.subrange(0, 1) =~= seq![first]);
    while i < terms.len()
        invariant
            1 <= i <= terms@.len(),
            terms_below(terms@, ks@.len() as int),
            acc == combination(terms@.subrange(0, i as int), ks@),
        decreases terms@.len() - i,
    {
        let term = terms[i];
        proof {
            lemma_combination_prefix(terms@, ks@, i as int);
        }
        acc = acc.plus(scale_by(ks[term.stage], term.coef));
        i += 1;
    }
    assert(terms@.subrange(0, terms@.len() as int) =~= terms@);
    acc
}

/// Computes `rk_step(tab@, *f, t, h, y)`.
pub(crate) fn step<S: Scalar, R: Rhs1<S>>(tab: &Tableau, f: &R, t: S, h: S, y: S) -> (r: S)
    requires
        tab@.wf(),
    ensures
        r == rk_step(tab@, *f, t, h, y),
{
    let mut ks: Vec<S> = Vec::new();
    ks.push(h.times(f.eval(t, y)));
    assert(ks@ =~= slopes(tab@, *f, t, h, y, 1));
    let mut j: usize = 0;
    while j < tab.stages.len()
        invariant
            tab@.wf(),
            j <= tab@.stages.len(),
            ks@.len() == j + 1,
            ks@ == slopes(tab@, *f, t, h, y, (j + 1) as nat),
        decreases tab@.stages.len() - j,
    {
        let st = &tab.stages[j];
        assert(tab@.stages[j as int] == st@);
        assert(st@.wf(j as int));
        let tj = t.plus(divide_by(scale_by(h, st.node_num), st.node_den));
        let yj = y.plus(divide_by(combine(&st.terms, &ks), st.den));
        ks.push(h.times(f.eval(tj, yj)));
        j += 1;
    }
    y.plus(divide_by(combine(&tab.weights, &ks), tab.weight_den))
}

} // verus!
