use vstd::prelude::*;
use crate::rhs::{FreezeFirst, FreezeSecond, Rhs1, Rhs2};
use crate::scalar::Scalar;
use crate::stepping::{rk_step, step};
use crate::tableau::{SolverMethod, Tableau, TableauModel};

verus! {

/// Why a solve was refused.
#[derive(Clone, Copy, PartialEq, Eq, Structural, Debug)]
pub enum SolveError {
    /// The time grid does not hold exactly `n_steps + 1` points.
    GridLength,
}

/// `ys` is the trajectory of `dy/dt = f(t, y)` from `y_0` over `n` steps of
/// size `h` on the grid `t`: each point is one step of `tab` from the one before.
pub open spec fn is_trajectory1<S: Scalar, F: Rhs1<S>>(
    tab: TableauModel,
    f: F,
    t: Seq<S>,
    h: S,
    y_0: S,
    n: nat,
    ys: Seq<S>,
) -> bool {
    &&& ys.len() == n + 1
    &&& ys[0] == y_0
    &&& forall|i: int| 1 <= i <= n ==> #[trigger] ys[i] == rk_step(tab, f, t[i - 1], h, ys[i - 1])
}

/// The first state's step from `(y1, y2)`: all its stages see `y2` as it was.
pub open spec fn first_step<S: Scalar, F: Rhs2<S>>(tab: TableauModel, f1: F, t: S, h: S, y1: S, y2: S) -> S {
    rk_step(tab, FreezeSecond { field: &f1, second: y2 }, t, h, y1)
}

/// The second state's step from `y2`, once the first state has reached
/// `y1_next`: all its stages see `y1_next`.
pub open spec fn second_step<S: Scalar, G: Rhs2<S>>(
    tab: TableauModel,
    f2: G,
    t: S,
    h: S,
    y1_next: S,
    y2: S,
) -> S {
    rk_step(tab, FreezeFirst { field: &f2, first: y1_next }, t, h, y2)
}

/// `(ys1, ys2)` is the trajectory of the coupled system `dy1/dt = f1(t, y1, y2)`,
/// `dy2/dt = f2(t, y1, y2)`: at each step the first state is advanced first,
/// then the second one with the first state's new value.
pub open spec fn is_trajectory2<S: Scalar, F: Rhs2<S>, G: Rhs2<S>>(
    tab: TableauModel,
    f1: F,
    f2: G,
    t: Seq<S>,
    h: S,
    y1_0: S,
    y2_0: S,
    n: nat,
    ys1: Seq<S>,
    ys2: Seq<S>,
) -> bool {
    &&& ys1.len() == n + 1
    &&& ys2.len() == n + 1
    &&& ys1[0] == y1_0
    &&& ys2[0] == y2_0
    &&& forall|i: int|
        1 <= i <= n ==> #[trigger] ys1[i] == first_step(tab, f1, t[i - 1], h, ys1[i - 1], ys2[i - 1])
    &&& forall|i: int|
        1 <= i <= n ==> #[trigger] ys2[i] == second_step(tab, f2, t[i - 1], h, ys1[i], ys2[i - 1])
}

/// What a one-variable solve with `method` returns: the trajectory when the grid
/// holds `n + 1` points, `GridLength` otherwise.
pub open spec fn solved1<S: Scalar, F: Rhs1<S>>(
    method: SolverMethod,
    f: F,
    h: S,
    n: nat,
    t: Seq<S>,
    y_0: S,
    r: Result<Vec<S>, SolveError>,
) -> bool {
    match r {
        Ok(ys) => t.len() == n + 1 && is_trajectory1(method.spec_tableau(), f, t, h, y_0, n, ys@),
        Err(e) => t.len() != n + 1 && e == SolveError::GridLength,
    }
}

/// What a two-variable solve with `method` returns: the pair of trajectories
/// when the grid holds `n + 1` points, `GridLength` otherwise.
pub open spec fn solved2<S: Scalar, F: Rhs2<S>, G: Rhs2<S>>(
    method: SolverMethod,
    f1: F,
    f2: G,
    h: S,
    n: nat,
    t: Seq<S>,
    y1_0: S,
    y2_0: S,
    r: Result<(Vec<S>, Vec<S>), SolveError>,
) -> bool {
    match r {
        Ok((ys1, ys2)) => t.len() == n + 1 && is_trajectory2(
            method.spec_tableau(),
            f1,
            f2,
            t,
            h,
            y1_0,
            y2_0,
            n,
            ys1@,
            ys2@,
        ),
        Err(e) => t.len() != n + 1 && e == SolveError::GridLength,
    }
}

fn run1<S: Scalar, F: Rhs1<S>>(tab: &Tableau, f: &F, h: S, n_steps: usize, t: &Vec<S>, y_0: S) -> (ys: Vec<S>)
    requires
        tab@.wf(),
        t@.len() == n_steps + 1,
    ensures
        is_trajectory1(tab@, *f, t@, h, y_0, n_steps as nat, ys@),
{
    let mut ys: Vec<S> = Vec::new();
    ys.push(y_0);
    let mut i: usize = 0;
    while i < n_steps
        invariant
            tab@.wf(),
            t@.len() == n_steps + 1,
            i <= n_steps,
            is_trajectory1(tab@, *f, t@, h, y_0, i as nat, ys@),
        decreases n_steps - i,
    {
        let y = step(tab, f, t[i], h, ys[i]);
        ys.push(y);
        i += 1;
    }
    ys
}

fn run2<S: Scalar, F: Rhs2<S>, G: Rhs2<S>>(
    tab: &Tableau,
    f1: &F,
    f2: &G,
    h: S,
    n_steps: usize,
    t: &Vec<S>,
    y1_0: S,
    y2_0: S,
) -> (r: (Vec<S>, Vec<S>))
    requires
        tab@.wf(),
        t@.len() == n_steps + 1,
    ensures
        is_trajectory2(tab@, *f1, *f2, t@, h, y1_0, y2_0, n_steps as nat, r.0@, r.1@),
{
    let mut ys1: Vec<S> = Vec::new();
    let mut ys2: Vec<S> = Vec::new();
    ys1.push(y1_0);
    ys2.push(y2_0);
    let mut i: usize = 0;
    while i < n_steps
        invariant
            tab@.wf(),
            t@.len() == n_steps + 1,
            i <= n_steps,
            is_trajectory2(tab@, *f1, *f2, t@, h, y1_0, y2_0, i as nat, ys1@, ys2@),
        decreases n_steps - i,
    {
        let y1 = step(tab, &FreezeSecond { field: f1, second: ys2[i] }, t[i], h, ys1[i]);
        let y2 = step(tab, &FreezeFirst { field: f2, first: y1 }, t[i], h, ys2[i]);
        ys1.push(y1);
        ys2.push(y2);
        i += 1;
    }
    (ys1, ys2)
}

/// Steps `dy/dt = f(t, y)` with one selected method.
#[derive(Clone, Copy, Debug)]
pub struct ODESolver1 {
    method: SolverMethod,
}

impl ODESolver1 {
    /// The method this solver steps with.
    pub closed spec fn spec_method(self) -> SolverMethod {
        self.method
    }

    pub fn new(method: SolverMethod) -> (r: Self)
        ensures
            r.spec_method() == method,
    {
        Self { method }
    }

    /// The method this solver steps with.
    pub fn method(&self) -> (r: SolverMethod)
        ensures
            r == self.spec_method(),
    {
        self.method
    }

    /// The trajectory `y[0..=n_steps]` of `dy/dt = f(t, y)` from `y[0] = y_0`,
    /// where `y[i + 1]` is one step of size `h` from `(t[i], y[i])`.
    /// Fails with `GridLength` unless `t` holds `n_steps + 1` points.
    pub fn solve<S: Scalar, F: Rhs1<S>>(self, f: F, h: S, n_steps: usize, t: &Vec<S>, y_0: S) -> (r: Result<Vec<S>, SolveError>)
        ensures
            solved1(self.spec_method(), f, h, n_steps as nat, t@, y_0, r),
    {
        if t.len() == 0 || t.len() - 1 != n_steps {
            return Err(SolveError::GridLength);
        }
        let tab = self.method.tableau();
        Ok(run1(&tab, &f, h, n_steps, t, y_0))
    }

    /// `solve` with Forward Euler.
    pub fn forward_euler<S: Scalar, F: Rhs1<S>>(f: F, h: S, n_steps: usize, t: &Vec<S>, y_0: S) -> (r: Result<Vec<S>, SolveError>)
        ensures
            solved1(SolverMethod::ForwardEuler, f, h, n_steps as nat, t@, y_0, r),
    {
        Self::new(SolverMethod::ForwardEuler).solve(f, h, n_steps, t, y_0)
    }

    /// `solve` with the explicit midpoint method.
    pub fn explicit_midpoint<S: Scalar, F: Rhs1<S>>(f: F, h: S, n_steps: usize, t: &Vec<S>, y_0: S) -> (r: Result<Vec<S>, SolveError>)
        ensures
            solved1(SolverMethod::ExplicitMidpoint, f, h, n_steps as nat, t@, y_0, r),
    {
        Self::new(SolverMethod::ExplicitMidpoint).solve(f, h, n_steps, t, y_0)
    }

    /// `solve` with Heun's second-order method.
    pub fn heun_s2<S: Scalar, F: Rhs1<S>>(f: F, h: S, n_steps: usize, t: &Vec<S>, y_0: S) -> (r: Result<Vec<S>, SolveError>)
        ensures
            solved1(SolverMethod::Heun2, f, h, n_steps as nat, t@, y_0, r),
    {
        Self::new(SolverMethod::Heun2).solve(f, h, n_steps, t, y_0)
    }

    /// `solve` with Ralston's second-order method.
    pub fn ralston_s2<S: Scalar, F: Rhs1<S>>(f: F, h: S, n_steps: usize, t: &Vec<S>, y_0: S) -> (r: Result<Vec<S>, SolveError>)
        ensures
            solved1(SolverMethod::Ralston2, f, h, n_steps as nat, t@, y_0, r),
    {
        Self::new(SolverMethod::Ralston2).solve(f, h, n_steps, t, y_0)
    }

    /// `solve` with Kutta's third-order method.
    pub fn kutta_s3<S: Scalar, F: Rhs1<S>>(f: F, h: S, n_steps: usize, t: &Vec<S>, y_0: S) -> (r: Result<Vec<S>, SolveError>)
        ensures
            solved1(SolverMethod::Kutta3, f, h, n_steps as nat, t@, y_0, r),
    {
        Self::new(SolverMethod::Kutta3).solve(f, h, n_steps, t, y_0)
    }

    /// `solve` with Wray's third-order method.
    pub fn wray_s3<S: Scalar, F: Rhs1<S>>(f: F, h: S, n_steps: usize, t: &Vec<S>, y_0: S) -> (r: Result<Vec<S>, SolveError>)
        ensures
            solved1(SolverMethod::Wray3, f, h, n_steps as nat, t@, y_0, r),
    {
        Self::new(SolverMethod::Wray3).solve(f, h, n_steps, t, y_0)
    }

    /// `solve` with Ralston's third-order method.
    pub fn ralston_s3<S: Scalar, F: Rhs1<S>>(f: F, h: S, n_steps: usize, t: &Vec<S>, y_0: S) -> (r: Result<Vec<S>, SolveError>)
        ensures
            solved1(SolverMethod::Ralston3, f, h, n_steps as nat, t@, y_0, r),
    {
        Self::new(SolverMethod::Ralston3).solve(f, h, n_steps, t, y_0)
    }

    /// `solve` with the third-order strong-stability-preserving method.
    pub fn ssprk3<S: Scalar, F: Rhs1<S>>(f: F, h: S, n_steps: usize, t: &Vec<S>, y_0: S) -> (r: Result<Vec<S>, SolveError>)
        ensures
            solved1(SolverMethod::SSPRK3, f, h, n_steps as nat, t@, y_0, r),
    {
        Self::new(SolverMethod::SSPRK3).solve(f, h, n_steps, t, y_0)
    }

    /// `solve` with the classic fourth-order method.
    pub fn classic4<S: Scalar, F: Rhs1<S>>(f: F, h: S, n_steps: usize, t: &Vec<S>, y_0: S) -> (r: Result<Vec<S>, SolveError>)
        ensures
            solved1(SolverMethod::Classic4, f, h, n_steps as nat, t@, y_0, r),
    {
        Self::new(SolverMethod::Classic4).solve(f, h, n_steps, t, y_0)
    }

    /// `solve` with the fourth-order 3/8 rule.
    pub fn three_8th<S: Scalar, F: Rhs1<S>>(f: F, h: S, n_steps: usize, t: &Vec<S>, y_0: S) -> (r: Result<Vec<S>, SolveError>)
        ensures
            solved1(SolverMethod::Three8th, f, h, n_steps as nat, t@, y_0, r),
    {
        Self::new(SolverMethod::Three8th).solve(f, h, n_steps, t, y_0)
    }
}

/// Steps the coupled system `dy1/dt = f1(t, y1, y2)`, `dy2/dt = f2(t, y1, y2)`
/// with one selected method. At each step the first state is advanced first,
/// with the second state held at its current value; then the second state is
/// advanced with the first state held at its new value.
#[derive(Clone, Copy, Debug)]
pub struct ODESolver2 {
    method: SolverMethod,
}

impl ODESolver2 {
    /// The method this solver steps with.
    pub closed spec fn spec_method(self) -> SolverMethod {
        self.method
    }

    pub fn new(method: SolverMethod) -> (r: Self)
        ensures
            r.spec_method() == method,
    {
        Self { method }
    }

    /// The method this solver steps with.
    pub fn method(&self) -> (r: SolverMethod)
        ensures
            r == self.spec_method(),
    {
        self.method
    }

    /// The trajectories `(y1[0..=n_steps], y2[0..=n_steps])` of the coupled
    /// system from `(y1_0, y2_0)`. Fails with `GridLength` unless `t` holds
    /// `n_steps + 1` points.
    pub fn solve<S: Scalar, F: Rhs2<S>, G: Rhs2<S>>(
        self,
        f1: F,
        f2: G,
        h: S,
        n_steps: usize,
        t: &Vec<S>,
        y1_0: S,
        y2_0: S,
    ) -> (r: Result<(Vec<S>, Vec<S>), SolveError>)
        ensures
            solved2(self.spec_method(), f1, f2, h, n_steps as nat, t@, y1_0, y2_0, r),
    {
        if t.len() == 0 || t.len() - 1 != n_steps {
            return Err(SolveError::GridLength);
        }
        let tab = self.method.tableau();
        Ok(run2(&tab, &f1, &f2, h, n_steps, t, y1_0, y2_0))
    }

    /// `solve` with Forward Euler.
    pub fn forward_euler<S: Scalar, F: Rhs2<S>, G: Rhs2<S>>(
        f1: F,
        f2: G,
        h: S,
        n_steps: usize,
        t: &Vec<S>,
        y1_0: S,
        y2_0: S,
    ) -> (r: Result<(Vec<S>, Vec<S>), SolveError>)
        ensures
            solved2(SolverMethod::ForwardEuler, f1, f2, h, n_steps as nat, t@, y1_0, y2_0, r),
    {
        Self::new(SolverMethod::ForwardEuler).solve(f1, f2, h, n_steps, t, y1_0, y2_0)
    }

    /// `solve` with the explicit midpoint method.
    pub fn explicit_midpoint<S: Scalar, F: Rhs2<S>, G: Rhs2<S>>(
        f1: F,
        f2: G,
        h: S,
        n_steps: usize,
        t: &Vec<S>,
        y1_0: S,
        y2_0: S,
    ) -> (r: Result<(Vec<S>, Vec<S>), SolveError>)
        ensures
            solved2(SolverMethod::ExplicitMidpoint, f1, f2, h, n_steps as nat, t@, y1_0, y2_0, r),
    {
        Self::new(SolverMethod::ExplicitMidpoint).solve(f1, f2, h, n_steps, t, y1_0, y2_0)
    }

    /// `solve` with Heun's second-order method.
    pub fn heun_s2<S: Scalar, F: Rhs2<S>, G: Rhs2<S>>(
        f1: F,
        f2: G,
        h: S,
        n_steps: usize,
        t: &Vec<S>,
        y1_0: S,
        y2_0: S,
    ) -> (r: Result<(Vec<S>, Vec<S>), SolveError>)
        ensures
            solved2(SolverMethod::Heun2, f1, f2, h, n_steps as nat, t@, y1_0, y2_0, r),
    {
        Self::new(SolverMethod::Heun2).solve(f1, f2, h, n_steps, t, y1_0, y2_0)
    }

    /// `solve` with Ralston's second-order method.
    pub fn ralston_s2<S: Scalar, F: Rhs2<S>, G: Rhs2<S>>(
        f1: F,
        f2: G,
        h: S,
        n_steps: usize,
        t: &Vec<S>,
        y1_0: S,
        y2_0: S,
    ) -> (r: Result<(Vec<S>, Vec<S>), SolveError>)
        ensures
            solved2(SolverMethod::Ralston2, f1, f2, h, n_steps as nat, t@, y1_0, y2_0, r),
    {
        Self::new(SolverMethod::Ralston2).solve(f1, f2, h, n_steps, t, y1_0, y2_0)
    }

    /// `solve` with Kutta's third-order method.
    pub fn kutta_s3<S: Scalar, F: Rhs2<S>, G: Rhs2<S>>(
        f1: F,
        f2: G,
        h: S,
        n_steps: usize,
        t: &Vec<S>,
        y1_0: S,
        y2_0: S,
    ) -> (r: Result<(Vec<S>, Vec<S>), SolveError>)
        ensures
            solved2(SolverMethod::Kutta3, f1, f2, h, n_steps as nat, t@, y1_0, y2_0, r),
    {
        Self::new(SolverMethod::Kutta3).solve(f1, f2, h, n_steps, t, y1_0, y2_0)
    }

    /// `solve` with Wray's third-order method.
    pub fn wray_s3<S: Scalar, F: Rhs2<S>, G: Rhs2<S>>(
        f1: F,
        f2: G,
        h: S,
        n_steps: usize,
        t: &Vec<S>,
        y1_0: S,
        y2_0: S,
    ) -> (r: Result<(Vec<S>, Vec<S>), SolveError>)
        ensures
            solved2(SolverMethod::Wray3, f1, f2, h, n_steps as nat, t@, y1_0, y2_0, r),
    {
        Self::new(SolverMethod::Wray3).solve(f1, f2, h, n_steps, t, y1_0, y2_0)
    }

    /// `solve` with Ralston's third-order method.
    pub fn ralston_s3<S: Scalar, F: Rhs2<S>, G: Rhs2<S>>(
        f1: F,
        f2: G,
        h: S,
        n_steps: usize,
        t: &Vec<S>,
        y1_0: S,
        y2_0: S,
    ) -> (r: Result<(Vec<S>, Vec<S>), SolveError>)
        ensures
            solved2(SolverMethod::Ralston3, f1, f2, h, n_steps as nat, t@, y1_0, y2_0, r),
    {
        Self::new(SolverMethod::Ralston3).solve(f1, f2, h, n_steps, t, y1_0, y2_0)
    }

    /// `solve` with the third-order strong-stability-preserving method.
    pub fn ssprk3<S: Scalar, F: Rhs2<S>, G: Rhs2<S>>(
        f1: F,
        f2: G,
        h: S,
        n_steps: usize,
        t: &Vec<S>,
        y1_0: S,
        y2_0: S,
    ) -> (r: Result<(Vec<S>, Vec<S>), SolveError>)
        ensures
            solved2(SolverMethod::SSPRK3, f1, f2, h, n_steps as nat, t@, y1_0, y2_0, r),
    {
        Self::new(SolverMethod::SSPRK3).solve(f1, f2, h, n_steps, t, y1_0, y2_0)
    }

    /// `solve` with the classic fourth-order method.
    pub fn classic4<S: Scalar, F: Rhs2<S>, G: Rhs2<S>>(
        f1: F,
        f2: G,
        h: S,
        n_steps: usize,
        t: &Vec<S>,
        y1_0: S,
        y2_0: S,
    ) -> (r: Result<(Vec<S>, Vec<S>), SolveError>)
        ensures
            solved2(SolverMethod::Classic4, f1, f2, h, n_steps as nat, t@, y1_0, y2_0, r),
    {
        Self::new(SolverMethod::Classic4).solve(f1, f2, h, n_steps, t, y1_0, y2_0)
    }

    /// `solve` with the fourth-order 3/8 rule.
    pub fn three_8th<S: Scalar, F: Rhs2<S>, G: Rhs2<S>>(
        f1: F,
        f2: G,
        h: S,
        n_steps: usize,
        t: &Vec<S>,
        y1_0: S,
        y2_0: S,
    ) -> (r: Result<(Vec<S>, Vec<S>), SolveError>)
        ensures
            solved2(SolverMethod::Three8th, f1, f2, h, n_steps as nat, t@, y1_0, y2_0, r),
    {
        Self::new(SolverMethod::Three8th).solve(f1, f2, h, n_steps, t, y1_0, y2_0)
    }
}

} // verus!
