//! Quantities and prices, carried through the pipeline without arithmetic.

use vstd::prelude::*;

verus! {

/// A quantity or a price as the bit pattern of an IEEE 754 double. The
/// pipeline stores and moves such values but never computes with them, so the
/// bits are all it needs.
#[derive(Clone, Copy, Debug, PartialEq, Eq, Structural)]
pub struct Amount {
    pub bits: u64,
}

impl Amount {
    /// Wraps the bit pattern of a double.
    pub fn from_bits(bits: u64) -> (a: Amount)
        ensures
            a.bits == bits,
    {
        Amount { bits }
    }

    /// The bit pattern of the double.
    pub fn to_bits(self) -> (bits: u64)
        ensures
            bits == self.bits,
    {
        self.bits
    }
}

} // verus!
