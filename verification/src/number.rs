//! Floating-point numbers that are known to be finite.
//!
//! A number is held by the 64 bits of its IEEE 754 double-precision encoding.
//! Nothing here computes with the number: callers turn it into a float and
//! back with `f64::from_bits` and `f64::to_bits`.

use vstd::prelude::*;

verus! {

/// The exponent field of an encoding, with all bits set, stands for an
/// infinity or a NaN.
pub open spec fn bits_finite(bits: u64) -> bool {
    (bits >> 52) & 0x7ff != 0x7ff
}

/// Both encodings of zero: with the sign bit clear and with it set.
pub open spec fn bits_zero(bits: u64) -> bool {
    bits == 0 || bits == 0x8000_0000_0000_0000
}

/// A finite double-precision number.
#[derive(Clone, Copy, Debug)]
pub struct FiniteF64 {
    bits: u64,
}

impl FiniteF64 {
    /// The encoding of the number.
    pub closed spec fn view(&self) -> u64 {
        self.bits
    }

    /// The encoding is that of a finite number. It holds of every value that
    /// this module hands out.
    pub open spec fn wf(&self) -> bool {
        bits_finite(self@)
    }

    /// The number with the encoding `bits`, if that number is finite.
    pub fn from_bits(bits: u64) -> (r: Option<FiniteF64>)
        ensures
            r is Some <==> bits_finite(bits),
            r matches Some(v) ==> v@ == bits && v.wf(),
    {
        if (bits >> 52) & 0x7ff != 0x7ff {
            Some(FiniteF64 { bits })
        } else {
            None
        }
    }

    /// The encoding of the number.
    pub fn to_bits(self) -> (r: u64)
        ensures
            r == self@,
    {
        self.bits
    }

    /// Whether the number is zero, of either sign.
    pub fn is_zero(self) -> (r: bool)
        ensures
            r == bits_zero(self@),
    {
        self.bits == 0 || self.bits == 0x8000_0000_0000_0000
    }

    /// What `==` means: two finite numbers are equal where their encodings
    /// are, and where both are zero, of whichever sign.
    pub open spec fn same(self, other: FiniteF64) -> bool {
        self@ == other@ || (bits_zero(self@) && bits_zero(other@))
    }
}

impl PartialEq for FiniteF64 {
    fn eq(&self, other: &FiniteF64) -> (r: bool) {
        self.bits == other.bits || (self.is_zero() && other.is_zero())
    }
}

impl vstd::std_specs::cmp::PartialEqSpecImpl for FiniteF64 {
    open spec fn obeys_eq_spec() -> bool {
        true
    }

    open spec fn eq_spec(&self, other: &FiniteF64) -> bool {
        self.same(*other)
    }
}

} // verus!
