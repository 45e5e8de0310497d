//! Scalars as opaque bit patterns.
//!
//! Every scalar the binding routes — interval bounds, frequencies,
//! tolerances, integral estimates — is an IEEE 754 double on the native
//! side. The binding never computes with these values; it only stores them
//! and hands them across the foreign boundary. So this crate carries each
//! one as its 64-bit pattern, which the contracts can speak of exactly,
//! and the application converts at the boundary.

use vstd::prelude::*;

verus! {

/// The bit pattern of the double 0.0.
pub const REAL_ZERO_BITS: u64 = 0;

/// The bit pattern of the double 1.0 (sign 0, biased exponent 1023,
/// mantissa 0).
pub const REAL_ONE_BITS: u64 = 0x3FF0000000000000;

/// A scalar, carried verbatim as the bit pattern of an IEEE 754 double.
///
/// The library stores and routes values of this type but never interprets
/// them: two scalars are the same exactly when their bit patterns are.
#[derive(Clone, Copy, Debug, PartialEq, Eq, Structural)]
pub struct Real {
    /// The IEEE 754 double bit pattern.
    pub bits: u64,
}

impl Real {
    /// Wraps a bit pattern.
    pub fn from_bits(bits: u64) -> (r: Real)
        ensures
            r.bits == bits,
    {
        Real { bits }
    }

    /// Hands the bit pattern back, unchanged.
    pub fn to_bits(self) -> (bits: u64)
        ensures
            bits == self.bits,
    {
        self.bits
    }

    /// The scalar 0.0.
    pub fn zero() -> (r: Real)
        ensures
            r.bits == REAL_ZERO_BITS,
    {
        Real { bits: REAL_ZERO_BITS }
    }

    /// The scalar 1.0.
    pub fn one() -> (r: Real)
        ensures
            r.bits == REAL_ONE_BITS,
    {
        Real { bits: REAL_ONE_BITS }
    }
}

} // verus!

