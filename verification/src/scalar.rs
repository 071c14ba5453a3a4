//! Measured quantities carried by their IEEE-754 bit patterns.
//!
//! The orchestration layer never computes with physical quantities; it
//! routes, stores and republishes them. Keeping each value as the bit pattern
//! of its binary encoding makes equality exact and total.

use vstd::prelude::*;

verus! {

/// A double-precision quantity, held as the 64 bits of its encoding.
#[derive(Clone, Copy, Debug, PartialEq, Eq, Structural)]
pub struct Double {
    pub bits: u64,
}

/// A single-precision quantity, held as the 32 bits of its encoding.
#[derive(Clone, Copy, Debug, PartialEq, Eq, Structural)]
pub struct Single {
    pub bits: u32,
}

/// Bit pattern of positive zero in double precision.
pub const DOUBLE_ZERO: u64 = 0;

/// Bit pattern of one in double precision.
pub const DOUBLE_ONE: u64 = 0x3FF0_0000_0000_0000;

/// Bit pattern of two in double precision.
pub const DOUBLE_TWO: u64 = 0x4000_0000_0000_0000;

/// Bit pattern of three in double precision.
pub const DOUBLE_THREE: u64 = 0x4008_0000_0000_0000;

/// Bit pattern of thirty in double precision.
pub const DOUBLE_THIRTY: u64 = 0x403E_0000_0000_0000;

impl Double {
    /// The quantity with the given encoding.
    pub fn from_bits(bits: u64) -> (d: Double)
        ensures
            d.bits == bits,
    {
        Double { bits }
    }

    /// The encoding of this quantity.
    pub fn to_bits(self) -> (bits: u64)
        ensures
            bits == self.bits,
    {
        self.bits
    }

    /// Positive zero.
    pub fn zero() -> (d: Double)
        ensures
            d.bits == DOUBLE_ZERO,
    {
        Double { bits: DOUBLE_ZERO }
    }
}

impl Single {
    /// The quantity with the given encoding.
    pub fn from_bits(bits: u32) -> (s: Single)
        ensures
            s.bits == bits,
    {
        Single { bits }
    }

    /// The encoding of this quantity.
    pub fn to_bits(self) -> (bits: u32)
        ensures
            bits == self.bits,
    {
        self.bits
    }

    /// Positive zero.
    pub fn zero() -> (s: Single)
        ensures
            s.bits == 0,
    {
        Single { bits: 0 }
    }
}

/// The value of an optional quantity, or positive zero where it is absent.
pub open spec fn spec_or_zero(v: Option<Double>) -> Double {
    match v {
        Some(d) => d,
        None => Double { bits: DOUBLE_ZERO },
    }
}

/// The value of an optional quantity, or positive zero where it is absent.
#[verifier::when_used_as_spec(spec_or_zero)]
pub fn or_zero(v: Option<Double>) -> (d: Double)
    ensures
        d == spec_or_zero(v),
{
    match v {
        Some(d) => d,
        None => Double::zero(),
    }
}

} // verus!
