//! Bit-pattern representations of IEEE-754 floating-point values.
//!
//! Floating-point arithmetic itself stays outside the verified library, so a
//! 32-bit or 64-bit float is carried here by its exact bit pattern. The
//! emptiness rule for floats is "compares equal to 0.0", which on the bit
//! level means the whole pattern apart from the sign bit is zero: both +0.0
//! and -0.0 count as empty, while every NaN pattern has payload bits set and
//! therefore does not.

use vstd::prelude::*;

use crate::is_empty::IsEmpty;

verus! {

/// The bit pattern of an IEEE-754 single-precision (32-bit) value.
#[derive(Clone, Copy, Debug)]
pub struct Float32 {
    bits: u32,
}

impl View for Float32 {
    type V = u32;

    closed spec fn view(&self) -> u32 {
        self.bits
    }
}

impl Float32 {
    /// Wraps the raw bit pattern of a single-precision value, as
    /// `f32::to_bits` hands it out.
    pub fn from_bits(bits: u32) -> (r: Self)
        ensures
            r@ == bits,
    {
        Float32 { bits }
    }

    /// The raw bit pattern, ready for `f32::from_bits`.
    pub fn to_bits(&self) -> (r: u32)
        ensures
            r == self@,
    {
        self.bits
    }
}

/// A single-precision value is empty iff it compares equal to 0.0, i.e. its
/// pattern is +0.0 or -0.0. NaN patterns are not empty.
impl IsEmpty for Float32 {
    open spec fn empty_spec(&self) -> bool {
        self@ == 0 || self@ == 0x8000_0000
    }

    fn is_empty(&self) -> (r: bool) {
        self.bits == 0 || self.bits == 0x8000_0000
    }
}

/// The bit pattern of an IEEE-754 double-precision (64-bit) value.
#[derive(Clone, Copy, Debug)]
pub struct Float64 {
    bits: u64,
}

impl View for Float64 {
    type V = u64;

    closed spec fn view(&self) -> u64 {
        self.bits
    }
}

impl Float64 {
    /// Wraps the raw bit pattern of a double-precision value, as
    /// `f64::to_bits` hands it out.
    pub fn from_bits(bits: u64) -> (r: Self)
        ensures
            r@ == bits,
    {
        Float64 { bits }
    }

    /// The raw bit pattern, ready for `f64::from_bits`.
    pub fn to_bits(&self) -> (r: u64)
        ensures
            r == self@,
    {
        self.bits
    }
}

/// A double-precision value is empty iff it compares equal to 0.0, i.e. its
/// pattern is +0.0 or -0.0. NaN patterns are not empty.
impl IsEmpty for Float64 {
    open spec fn empty_spec(&self) -> bool {
        self@ == 0 || self@ == 0x8000_0000_0000_0000
    }

    fn is_empty(&self) -> (r: bool) {
        self.bits == 0 || self.bits == 0x8000_0000_0000_0000
    }
}

} // verus!
