//! Tableau coefficients.
//!
//! A coefficient is carried as the bit pattern of an IEEE-754 binary64 number.
//! The steppers never compute with coefficients themselves: they only ask
//! whether one is zero, and hand the others to the scalar field, which decodes
//! them.

use vstd::prelude::*;

verus! {

/// Bit pattern of positive zero.
pub const POSITIVE_ZERO: u64 = 0x0000_0000_0000_0000;

/// Bit pattern of negative zero.
pub const NEGATIVE_ZERO: u64 = 0x8000_0000_0000_0000;

/// Bit pattern of one half, the factor applied to a rejected trial step.
pub const ONE_HALF: u64 = 0x3fe0_0000_0000_0000;

/// Bit pattern of three halves, the factor applied to an accepted step.
pub const THREE_HALVES: u64 = 0x3ff8_0000_0000_0000;

/// A coefficient is zero when it encodes one of the two signed zeros. Every
/// other pattern, a NaN included, compares unequal to zero.
pub open spec fn is_zero(c: u64) -> bool {
    c == POSITIVE_ZERO || c == NEGATIVE_ZERO
}

/// Tells whether a coefficient is zero.
pub fn coefficient_is_zero(c: u64) -> (z: bool)
    ensures
        z == is_zero(c),
{
    c == POSITIVE_ZERO || c == NEGATIVE_ZERO
}

} // verus!
