use vstd::prelude::*;
use crate::scalar::Scalar;

verus! {

/// The right-hand side `f(t, y)` of `dy/dt = f(t, y)`.
///
/// `rate` names the value of the field; `eval` computes it. An implementation
/// must be pure: the same arguments always give the same value.
pub trait Rhs1<S: Scalar> {
    spec fn rate(&self, t: S, y: S) -> S;

    fn eval(&self, t: S, y: S) -> (r: S)
        ensures
            r == self.rate(t, y),
    ;
}

/// One right-hand side `f(t, y1, y2)` of a coupled two-variable system.
pub trait Rhs2<S: Scalar> {
    spec fn rate(&self, t: S, y1: S, y2: S) -> S;

    fn eval(&self, t: S, y1: S, y2: S) -> (r: S)
        ensures
            r == self.rate(t, y1, y2),
    ;
}

/// The field `dy/dt = value`, the same at every time and state.
#[derive(Clone, Copy, Debug)]
pub struct ConstantRate<S> {
    pub value: S,
}

impl<S: Scalar> Rhs1<S> for ConstantRate<S> {
    open spec fn rate(&self, t: S, y: S) -> S {
        self.value
    }

    fn eval(&self, t: S, y: S) -> (r: S) {
        self.value
    }
}

impl<S: Scalar> Rhs2<S> for ConstantRate<S> {
    open spec fn rate(&self, t: S, y1: S, y2: S) -> S {
        self.value
    }

    fn eval(&self, t: S, y1: S, y2: S) -> (r: S) {
        self.value
    }
}

/// `f(t, y, second)`: a two-variable field with its second state held fixed.
pub struct FreezeSecond<'a, S, F> {
    pub field: &'a F,
    pub second: S,
}

impl<'a, S: Scalar, F: Rhs2<S>> Rhs1<S> for FreezeSecond<'a, S, F> {
    open spec fn rate(&self, t: S, y: S) -> S {
        self.field.rate(t, y, self.second)
    }

    fn eval(&self, t: S, y: S) -> (r: S) {
        self.field.eval(t, y, self.second)
    }
}

/// `f(t, first, y)`: a two-variable field with its first state held fixed.
pub struct FreezeFirst<'a, S, F> {
    pub field: &'a F,
    pub first: S,
}

impl<'a, S: Scalar, F: Rhs2<S>> Rhs1<S> for FreezeFirst<'a, S, F> {
    open spec fn rate(&self, t: S, y: S) -> S {
        self.field.rate(t, self.first, y)
    }

    fn eval(&self, t: S, y: S) -> (r: S) {
        self.field.eval(t, self.first, y)
    }
}

} // verus!
