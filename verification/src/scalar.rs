//! Numbers of the data model, held by their bit patterns.

use vstd::prelude::*;

verus! {

/// A 64-bit IEEE-754 number, held by its bit pattern.
///
/// Two scalars are equal exactly when their bit patterns are.
#[derive(Clone, Copy, Debug, PartialEq, Eq, Structural)]
pub struct Scalar {
    pub bits: u64,
}

/// The eleven exponent bits of the pattern, all set for infinities and NaN.
pub const EXPONENT_MASK: u64 = 0x7FF0_0000_0000_0000;

/// Whether a bit pattern stands for a finite number.
pub open spec fn bits_finite(bits: u64) -> bool {
    bits & EXPONENT_MASK != EXPONENT_MASK
}

impl DeepView for Scalar {
    type V = u64;

    open spec fn deep_view(&self) -> u64 {
        self.bits
    }
}

impl Scalar {
    /// The scalar with the given bit pattern.
    pub fn from_bits(bits: u64) -> (s: Scalar)
        ensures
            s.bits == bits,
    {
        Scalar { bits }
    }

    /// The bit pattern.
    pub fn to_bits(&self) -> (bits: u64)
        ensures
            bits == self.bits,
    {
        self.bits
    }

    /// True unless the scalar is an infinity or a NaN.
    pub fn is_finite(&self) -> (r: bool)
        ensures
            r == bits_finite(self.bits),
    {
        self.bits & EXPONENT_MASK != EXPONENT_MASK
    }
}

} // verus!
