//! Real-valued synthesis parameters, carried by their bit pattern.

use vstd::prelude::*;

verus! {

/// A binary64 number held by its IEEE 754 bit pattern.
///
/// The editor stores, copies and restores such numbers, and never computes
/// with them, so the bit pattern is all the library needs: two scalars are the
/// same parameter value exactly when their bits are the same.
#[derive(Clone, Copy, Debug, PartialEq, Eq, Hash, Structural)]
pub struct Scalar {
    pub bits: u64,
}

/// Bit pattern of `0.0`.
pub const ZERO_BITS: u64 = 0;

/// Bit pattern of `1.0`.
pub const ONE_BITS: u64 = 0x3FF0_0000_0000_0000;

/// Bit pattern of `0.1`, rounded to nearest.
pub const TENTH_BITS: u64 = 0x3FB9_9999_9999_999A;

impl Scalar {
    /// The scalar with the given bit pattern.
    pub fn from_bits(bits: u64) -> (r: Scalar)
        ensures
            r.bits == bits,
    {
        Scalar { bits }
    }

    /// The bit pattern of `self`.
    pub fn to_bits(self) -> (r: u64)
        ensures
            r == self.bits,
    {
        self.bits
    }

    /// The number `0.0`.
    pub fn zero() -> (r: Scalar)
        ensures
            r.bits == ZERO_BITS,
    {
        Scalar { bits: ZERO_BITS }
    }

    /// The number `1.0`.
    pub fn one() -> (r: Scalar)
        ensures
            r.bits == ONE_BITS,
    {
        Scalar { bits: ONE_BITS }
    }

    /// The number `0.1`.
    pub fn tenth() -> (r: Scalar)
        ensures
            r.bits == TENTH_BITS,
    {
        Scalar { bits: TENTH_BITS }
    }
}

} // verus!
