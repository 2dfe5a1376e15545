//! IEEE 754 single-precision numbers, held by their bit patterns.
//!
//! Every timing value of this library (seconds, deviations, windows, scores)
//! is a single-precision number. The library compares such numbers, it never
//! does arithmetic on them: callers produce sums, differences and curve values
//! with the machine's floating-point unit and hand the resulting bit patterns
//! in. All comparisons here follow IEEE 754: a NaN compares false with
//! everything, and the two zeros are equal.

use vstd::prelude::*;

verus! {

/// Bit that holds the sign of a single-precision number.
pub const SIGN_BIT: u32 = 0x8000_0000;

/// Bit pattern of positive infinity. Every magnitude above it is a NaN.
pub const INFINITY_BITS: u32 = 0x7F80_0000;

/// Bit pattern of `1.0`.
pub const ONE_BITS: u32 = 0x3F80_0000;

/// A single-precision number, identified by its IEEE 754 bit pattern.
///
/// `==` on this type compares bit patterns. The numeric comparisons are the
/// methods [`Binary32::lt`], [`Binary32::le`], [`Binary32::gt`],
/// [`Binary32::ge`] and [`Binary32::same_number`].
#[derive(Clone, Copy, Debug, PartialEq, Eq, Structural)]
pub struct Binary32 {
    pub bits: u32,
}

impl Binary32 {
    /// The bit pattern with the sign bit cleared.
    pub open spec fn magnitude(self) -> int {
        if self.bits >= SIGN_BIT {
            self.bits - SIGN_BIT
        } else {
            self.bits as int
        }
    }

    /// Whether the sign bit is set.
    pub open spec fn sign(self) -> bool {
        self.bits >= SIGN_BIT
    }

    /// Whether the pattern encodes a NaN.
    pub open spec fn nan(self) -> bool {
        self.magnitude() > INFINITY_BITS
    }

    /// Whether the pattern encodes a number that is neither NaN nor infinite.
    pub open spec fn finite(self) -> bool {
        self.magnitude() < INFINITY_BITS
    }

    /// Position of a non-NaN value on the number line.
    ///
    /// Among patterns of one sign a larger magnitude encodes a number further
    /// from zero, so the signed magnitude orders non-NaN values exactly as
    /// their numeric values do; both zeros sit at position 0.
    pub open spec fn ord(self) -> int {
        if self.sign() {
            -self.magnitude()
        } else {
            self.magnitude()
        }
    }

    /// Numeric `<`.
    pub open spec fn lt_spec(self, other: Binary32) -> bool {
        !self.nan() && !other.nan() && self.ord() < other.ord()
    }

    /// Numeric `<=`.
    pub open spec fn le_spec(self, other: Binary32) -> bool {
        !self.nan() && !other.nan() && self.ord() <= other.ord()
    }

    /// Numeric `>`.
    pub open spec fn gt_spec(self, other: Binary32) -> bool {
        other.lt_spec(self)
    }

    /// Numeric `>=`.
    pub open spec fn ge_spec(self, other: Binary32) -> bool {
        other.le_spec(self)
    }

    /// Numeric `==`: false for a NaN, true for the two zeros.
    pub open spec fn same_number_spec(self, other: Binary32) -> bool {
        !self.nan() && !other.nan() && self.ord() == other.ord()
    }

    /// The absolute value: the same pattern with the sign bit cleared.
    pub open spec fn abs_spec(self) -> Binary32 {
        Binary32 { bits: self.magnitude() as u32 }
    }

    /// The larger of two numbers, where a NaN loses against a number.
    /// Of two equal numbers, and of two NaNs, the first is kept.
    pub open spec fn max_spec(self, other: Binary32) -> Binary32 {
        if other.nan() {
            self
        } else if self.nan() {
            other
        } else if self.ord() < other.ord() {
            other
        } else {
            self
        }
    }

    pub fn from_bits(bits: u32) -> (r: Binary32)
        ensures
            r.bits == bits,
    {
        Binary32 { bits }
    }

    pub fn to_bits(self) -> (r: u32)
        ensures
            r == self.bits,
    {
        self.bits
    }

    /// Positive zero.
    pub fn zero() -> (r: Binary32)
        ensures
            r.bits == 0,
    {
        Binary32 { bits: 0 }
    }

    /// Positive infinity.
    pub fn infinity() -> (r: Binary32)
        ensures
            r.bits == INFINITY_BITS,
    {
        Binary32 { bits: INFINITY_BITS }
    }

    fn magnitude_bits(self) -> (r: u32)
        ensures
            r == self.magnitude(),
            r < SIGN_BIT,
    {
        if self.bits >= SIGN_BIT {
            self.bits - SIGN_BIT
        } else {
            self.bits
        }
    }

    fn position(self) -> (r: i64)
        ensures
            r == self.ord(),
    {
        let m: u32 = self.magnitude_bits();
        if self.bits >= SIGN_BIT {
            0i64 - (m as i64)
        } else {
            m as i64
        }
    }

    pub fn is_nan(self) -> (r: bool)
        ensures
            r == self.nan(),
    {
        self.magnitude_bits() > INFINITY_BITS
    }

    pub fn is_finite(self) -> (r: bool)
        ensures
            r == self.finite(),
    {
        self.magnitude_bits() < INFINITY_BITS
    }

    pub fn abs(self) -> (r: Binary32)
        ensures
            r == self.abs_spec(),
            !r.sign(),
            r.nan() == self.nan(),
            r.ord() == self.magnitude(),
    {
        Binary32 { bits: self.magnitude_bits() }
    }

    pub fn lt(self, other: Binary32) -> (r: bool)
        ensures
            r == self.lt_spec(other),
    {
        !self.is_nan() && !other.is_nan() && self.position() < other.position()
    }

    pub fn le(self, other: Binary32) -> (r: bool)
        ensures
            r == self.le_spec(other),
    {
        !self.is_nan() && !other.is_nan() && self.position() <= other.position()
    }

    pub fn gt(self, other: Binary32) -> (r: bool)
        ensures
            r == self.gt_spec(other),
    {
        other.lt(self)
    }

    pub fn ge(self, other: Binary32) -> (r: bool)
        ensures
            r == self.ge_spec(other),
    {
        other.le(self)
    }

    pub fn same_number(self, other: Binary32) -> (r: bool)
        ensures
            r == self.same_number_spec(other),
    {
        !self.is_nan() && !other.is_nan() && self.position() == other.position()
    }

    pub fn max(self, other: Binary32) -> (r: Binary32)
        ensures
            r == self.max_spec(other),
    {
        if other.is_nan() {
            self
        } else if self.is_nan() {
            other
        } else if self.position() < other.position() {
            other
        } else {
            self
        }
    }
}

/// Whether each element of `values` is numerically `<=` its successor.
pub open spec fn sorted_spec(values: Seq<Binary32>) -> bool {
    forall|i: int| 0 <= i < values.len() - 1 ==> (#[trigger] values[i]).le_spec(values[i + 1])
}

/// Tells whether a sequence of numbers ascends: whether each is `<=` the next.
/// A sequence that holds a NaN beside another element does not ascend.
pub fn is_sorted(values: &Vec<Binary32>) -> (r: bool)
    ensures
        r == sorted_spec(values@),
{
    if values.len() < 2 {
        return true;
    }
    let mut i: usize = 0;
    while i < values.len() - 1
        invariant
            values.len() >= 2,
            0 <= i <= values.len() - 1,
            forall|k: int| 0 <= k < i ==> (#[trigger] values@[k]).le_spec(values@[k + 1]),
        decreases values.len() - i,
    {
        if !values[i].le(values[i + 1]) {
            return false;
        }
        i += 1;
    }
    true
}

/// On non-NaN numbers `<=` is a total preorder, and `max` returns an upper
/// bound of both arguments that is one of them.
pub proof fn lemma_max_is_upper_bound(a: Binary32, b: Binary32)
    requires
        !a.nan(),
        !b.nan(),
    ensures
        a.le_spec(a.max_spec(b)),
        b.le_spec(a.max_spec(b)),
        a.max_spec(b) == a || a.max_spec(b) == b,
{
}

} // verus!
