//! The arithmetic that the steppers consume.
//!
//! The steppers are generic over a scalar field and a vector space of states.
//! The traits ask for the operations and promise nothing of them: whatever
//! an implementation returns, the steppers hand on. The contracts of the
//! steppers are therefore stated over what the operations may return, as the
//! relations below name it. An implementation that says in its own contracts
//! what its methods return makes the contracts of the steppers say as much.
//!
//! No law of algebra is used, so that rounding arithmetic fits as well as
//! exact arithmetic.

use vstd::prelude::*;

verus! {

/// An ordered scalar field whose elements can be copied.
pub trait Real: Copy {
    /// Gives the scalar that stands for the binary64 number with bit pattern
    /// `bits`.
    fn repr(bits: u64) -> Self;

    /// Adds two scalars.
    fn add(self, rhs: Self) -> Self;

    /// Multiplies two scalars.
    fn mul(self, rhs: Self) -> Self;

    /// Tells whether `self` is strictly below `rhs`.
    fn lt(self, rhs: Self) -> bool;
}

/// A vector space over the scalar field `R` whose elements can be copied.
pub trait VectorSpace<R: Real>: Copy {
    /// Gives the additive identity.
    fn zero() -> Self;

    /// Adds two vectors.
    fn plus(self, rhs: Self) -> Self;

    /// Multiplies the vector by the scalar `k`.
    fn scale(self, k: R) -> Self;
}

/// A distance between states, measured in the scalar field `R`.
pub trait Metric<S, R: Real> {
    /// Measures the distance from `x1` to `x2`.
    fn distance(&self, x1: S, x2: S) -> R;
}

/// `out` is a scalar that decoding `bits` may give.
pub open spec fn is_repr<R: Real>(bits: u64, out: R) -> bool {
    call_ensures(R::repr, (bits,), out)
}

/// `out` is a scalar that adding `a` and `b` may give.
pub open spec fn is_sum<R: Real>(a: R, b: R, out: R) -> bool {
    call_ensures(R::add, (a, b), out)
}

/// `out` is a scalar that multiplying `a` and `b` may give.
pub open spec fn is_product<R: Real>(a: R, b: R, out: R) -> bool {
    call_ensures(R::mul, (a, b), out)
}

/// `out` is an answer that asking whether `a` is below `b` may give.
pub open spec fn is_less<R: Real>(a: R, b: R, out: bool) -> bool {
    call_ensures(R::lt, (a, b), out)
}

/// `out` is a vector that asking for the additive identity may give.
pub open spec fn is_origin<R: Real, S: VectorSpace<R>>(out: S) -> bool {
    call_ensures(S::zero, (), out)
}

/// `out` is a vector that adding `a` and `b` may give.
pub open spec fn is_vector_sum<R: Real, S: VectorSpace<R>>(a: S, b: S, out: S) -> bool {
    call_ensures(S::plus, (a, b), out)
}

/// `out` is a vector that multiplying `a` by the scalar `k` may give.
pub open spec fn is_scaled<R: Real, S: VectorSpace<R>>(a: S, k: R, out: S) -> bool {
    call_ensures(S::scale, (a, k), out)
}

/// `out` is a scalar that measuring the distance from `x1` to `x2` may give.
pub open spec fn is_distance<R: Real, S, M: Metric<S, R>>(d: M, x1: S, x2: S, out: R) -> bool {
    call_ensures(M::distance, (&d, x1, x2), out)
}

} // verus!
