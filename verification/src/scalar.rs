//! Single-precision numbers carried by their bit patterns.
//!
//! Pixel positions, radii and stroke widths are handed to the rasterizer as
//! IEEE-754 single-precision numbers. This library never computes with them:
//! it classifies them and passes them on, so a value is kept as its 32 bits.

use vstd::prelude::*;

verus! {

/// The bits of `4.0`.
pub const FOUR: u32 = 0x4080_0000;

/// The bits of `1.0`.
pub const ONE: u32 = 0x3f80_0000;

/// The sign bit of a bit pattern.
pub const SIGN: u32 = 0x8000_0000;

/// The bits of positive infinity: every larger magnitude is a NaN.
pub const INFINITY: u32 = 0x7f80_0000;

/// An IEEE-754 single-precision number, held as its bit pattern.
#[derive(Clone, Copy, Debug, PartialEq, Eq, Structural)]
pub struct Scalar {
    pub bits: u32,
}

impl Scalar {
    /// The bit pattern without its sign bit.
    pub open spec fn magnitude(self) -> u32 {
        if self.bits >= SIGN {
            (self.bits - SIGN) as u32
        } else {
            self.bits
        }
    }

    /// Whether the value is a NaN.
    pub open spec fn nan(self) -> bool {
        self.magnitude() > INFINITY
    }

    /// Whether the value is neither an infinity nor a NaN.
    pub open spec fn finite(self) -> bool {
        self.magnitude() < INFINITY
    }

    /// Whether the value is positive or negative zero.
    pub open spec fn zero(self) -> bool {
        self.magnitude() == 0
    }

    /// Whether the sign bit is set.
    pub open spec fn negative(self) -> bool {
        self.bits >= SIGN
    }

    /// Whether the value compares greater than zero: no NaN, no zero, sign clear.
    pub open spec fn positive(self) -> bool {
        0 < self.bits <= INFINITY
    }

    pub fn from_bits(bits: u32) -> (out: Self)
        ensures
            out.bits == bits,
    {
        Scalar { bits }
    }

    pub fn to_bits(self) -> (out: u32)
        ensures
            out == self.bits,
    {
        self.bits
    }

    fn magnitude_bits(self) -> (out: u32)
        ensures
            out == self.magnitude(),
    {
        if self.bits >= SIGN {
            self.bits - SIGN
        } else {
            self.bits
        }
    }

    pub fn is_nan(self) -> (out: bool)
        ensures
            out == self.nan(),
    {
        self.magnitude_bits() > INFINITY
    }

    pub fn is_finite(self) -> (out: bool)
        ensures
            out == self.finite(),
    {
        self.magnitude_bits() < INFINITY
    }

    pub fn is_zero(self) -> (out: bool)
        ensures
            out == self.zero(),
    {
        self.magnitude_bits() == 0
    }

    pub fn is_negative(self) -> (out: bool)
        ensures
            out == self.negative(),
    {
        self.bits >= SIGN
    }

    pub fn is_positive(self) -> (out: bool)
        ensures
            out == self.positive(),
    {
        0 < self.bits && self.bits <= INFINITY
    }
}

} // verus!
