//! Measurements as the camera reports them: IEEE 754 doubles, carried by
//! their bit pattern. The library moves them and never computes on them.

use vstd::prelude::*;

verus! {

/// An IEEE 754 double, given by its 64 bits. Two values are equal when their
/// bits are: `0.0` and `-0.0` differ, and a NaN equals itself.
#[derive(Clone, Copy, Debug, PartialEq, Eq, Structural)]
pub struct Double {
    pub bits: u64,
}

impl DeepView for Double {
    type V = Double;

    open spec fn deep_view(&self) -> Double {
        *self
    }
}

impl Double {
    /// Positive zero.
    pub open spec fn spec_zero() -> Double {
        Double { bits: 0 }
    }

    /// Positive zero.
    #[verifier::when_used_as_spec(spec_zero)]
    pub fn zero() -> (r: Double)
        ensures
            r == Double::spec_zero(),
    {
        Double { bits: 0 }
    }

    /// The double with the given bits.
    pub fn from_bits(bits: u64) -> (r: Double)
        ensures
            r.bits == bits,
    {
        Double { bits }
    }

    /// The bits of the double.
    pub fn to_bits(&self) -> (r: u64)
        ensures
            r == self.bits,
    {
        self.bits
    }
}

} // verus!
