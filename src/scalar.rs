use vstd::prelude::*;

verus! {

/// The arithmetic that the stepping engine needs from its number type.
///
/// Each operation has a spec counterpart that names its result, and the
/// engine's contracts are stated over those: a trajectory is described exactly,
/// rounding included, in terms of the operations of the number type it is
/// computed in. An implementation defines each spec item as its own operation
/// (for `f64`, `spec_plus` is IEEE addition and `plus` returns it); it must be
/// pure, so that the same operands always give the same result.
pub trait Scalar: Copy + Sized {
    /// `self + o`.
    spec fn spec_plus(self, o: Self) -> Self;

    /// `self * o`.
    spec fn spec_times(self, o: Self) -> Self;

    /// `self` multiplied by the integer `n`.
    spec fn spec_scale(self, n: i64) -> Self;

    /// `self` divided by the positive integer `d`.
    spec fn spec_divide(self, d: u64) -> Self;

    fn plus(self, o: Self) -> (r: Self)
        ensures
            r == self.spec_plus(o),
    ;

    fn times(self, o: Self) -> (r: Self)
        ensures
            r == self.spec_times(o),
    ;

    fn scale(self, n: i64) -> (r: Self)
        ensures
            r == self.spec_scale(n),
    ;

    fn divide(self, d: u64) -> (r: Self)
        requires
            d > 0,
        ensures
            r == self.spec_divide(d),
    ;
}

/// `x * n`, where a factor of one leaves `x` as it is.
pub open spec fn scaled<S: Scalar>(x: S, n: i64) -> S {
    if n == 1 {
        x
    } else {
        x.spec_scale(n)
    }
}

/// `x / d`, where a divisor of one leaves `x` as it is.
pub open spec fn divided<S: Scalar>(x: S, d: u64) -> S {
    if d == 1 {
        x
    } else {
        x.spec_divide(d)
    }
}

/// Computes `scaled(x, n)`.
pub(crate) fn scale_by<S: Scalar>(x: S, n: i64) -> (r: S)
    ensures
        r == scaled(x, n),
{
    if n == 1 {
        x
    } else {
        x.scale(n)
    }
}

/// Computes `divided(x, d)`.
pub(crate) fn divide_by<S: Scalar>(x: S, d: u64) -> (r: S)
    requires
        d > 0,
    ensures
        r == divided(x, d),
{
    if d == 1 {
        x
    } else {
        x.divide(d)
    }
}

} // verus!
