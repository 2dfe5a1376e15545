//! IEEE 754 double-precision numbers, held by their bit patterns. Beats and
//! tempos are such numbers. As with single precision, the library compares
//! them and leaves arithmetic to the caller.

use vstd::prelude::*;

verus! {

/// Bit that holds the sign of a double-precision number.
pub const SIGN_BIT_64: u64 = 0x8000_0000_0000_0000;

/// Bit pattern of positive infinity in double precision.
pub const INFINITY_BITS_64: u64 = 0x7FF0_0000_0000_0000;

/// A double-precision number, identified by its IEEE 754 bit pattern.
#[derive(Clone, Copy, Debug, PartialEq, Eq, Structural)]
pub struct Binary64 {
    pub bits: u64,
}

impl Binary64 {
    /// The bit pattern with the sign bit cleared.
    pub open spec fn magnitude(self) -> int {
        if self.bits >= SIGN_BIT_64 {
            self.bits - SIGN_BIT_64
        } else {
            self.bits as int
        }
    }

    /// Whether the pattern encodes a NaN.
    pub open spec fn nan(self) -> bool {
        self.magnitude() > INFINITY_BITS_64
    }

    /// Position of a non-NaN value on the number line: the signed
    /// magnitude, which orders such values as their numeric values do.
    pub open spec fn ord(self) -> int {
        if self.bits >= SIGN_BIT_64 {
            -self.magnitude()
        } else {
            self.magnitude()
        }
    }

    /// Numeric `<`.
    pub open spec fn lt_spec(self, other: Binary64) -> bool {
        !self.nan() && !other.nan() && self.ord() < other.ord()
    }

    /// Numeric `==`: false for a NaN, true for the two zeros.
    pub open spec fn same_number_spec(self, other: Binary64) -> bool {
        !self.nan() && !other.nan() && self.ord() == other.ord()
    }

    pub fn from_bits(bits: u64) -> (r: Binary64)
        ensures
            r.bits == bits,
    {
        Binary64 { bits }
    }

    pub fn to_bits(self) -> (r: u64)
        ensures
            r == self.bits,
    {
        self.bits
    }

    /// Positive infinity.
    pub fn infinity() -> (r: Binary64)
        ensures
            r.bits == INFINITY_BITS_64,
    {
        Binary64 { bits: INFINITY_BITS_64 }
    }

    fn magnitude_bits(self) -> (r: u64)
        ensures
            r == self.magnitude(),
            r < SIGN_BIT_64,
    {
        if self.bits >= SIGN_BIT_64 {
            self.bits - SIGN_BIT_64
        } else {
            self.bits
        }
    }

    fn position(self) -> (r: i128)
        ensures
            r == self.ord(),
    {
        let m: u64 = self.magnitude_bits();
        if self.bits >= SIGN_BIT_64 {
            0i128 - (m as i128)
        } else {
            m as i128
        }
    }

    pub fn is_nan(self) -> (r: bool)
        ensures
            r == self.nan(),
    {
        self.magnitude_bits() > INFINITY_BITS_64
    }

    pub fn is_zero(self) -> (r: bool)
        ensures
            r == self.same_number_spec(Binary64 { bits: 0 }),
    {
        self.magnitude_bits() == 0
    }

    pub fn lt(self, other: Binary64) -> (r: bool)
        ensures
            r == self.lt_spec(other),
    {
        !self.is_nan() && !other.is_nan() && self.position() < other.position()
    }

    pub fn same_number(self, other: Binary64) -> (r: bool)
        ensures
            r == self.same_number_spec(other),
    {
        !self.is_nan() && !other.is_nan() && self.position() == other.position()
    }
}

} // verus!
