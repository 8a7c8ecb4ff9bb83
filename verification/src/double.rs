//! Floating-point values as bit patterns.

use vstd::prelude::*;

verus! {

/// A 64-bit IEEE 754 number, held as its bit pattern.
///
/// The decoder only moves such values from the input into the decoded
/// structures. Equality compares bit patterns, so a NaN equals itself and
/// the two zeros differ.
#[derive(Clone, Copy, Debug, PartialEq, Eq, Structural)]
pub struct Double {
    pub bits: u64,
}

impl Double {
    /// The number with the given bit pattern.
    pub fn from_bits(bits: u64) -> (r: Double)
        ensures
            r.bits == bits,
    {
        Double { bits }
    }

    /// The bit pattern of the number.
    pub fn to_bits(&self) -> (bits: u64)
        ensures
            bits == self.bits,
    {
        self.bits
    }

    /// Positive zero.
    pub fn zero() -> (r: Double)
        ensures
            r == Double::spec_zero(),
    {
        Double { bits: 0 }
    }

    pub open spec fn spec_zero() -> Double {
        Double { bits: 0 }
    }
}

} // verus!
