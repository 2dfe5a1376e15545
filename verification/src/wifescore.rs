//! The wifescore: the bounded accuracy score of a played chart.

use vstd::prelude::*;
use crate::binary32::Binary32;
use crate::binary32::ONE_BITS;

verus! {

/// Whether `proportion` can be a wifescore: it is a number, and it is not
/// above `1.0`. Negative infinity is such a number.
pub open spec fn is_valid_proportion(proportion: Binary32) -> bool {
    !proportion.nan() && !proportion.gt_spec(Binary32 { bits: ONE_BITS })
}

/// A wifescore, as a proportion of the maximum. Every value of this type is a
/// number and at most `1.0` (100%).
#[derive(Copy, Clone, Debug)]
pub struct Wifescore {
    proportion: Binary32,
}

impl Wifescore {
    #[verifier::type_invariant]
    spec fn inv(self) -> bool {
        is_valid_proportion(self.proportion)
    }

    /// The score as a proportion of the maximum.
    pub closed spec fn view(self) -> Binary32 {
        self.proportion
    }

    /// Makes a wifescore from a value that is scaled to a maximum of 1.
    ///
    /// Returns `None` if the proportion is a NaN or over `1.0`.
    pub fn from_proportion(proportion: Binary32) -> (r: Option<Wifescore>)
        ensures
            r.is_some() <==> is_valid_proportion(proportion),
            r.is_some() ==> r.unwrap()@ == proportion,
    {
        if proportion.is_nan() || proportion.gt(Binary32::from_bits(ONE_BITS)) {
            None
        } else {
            Some(Wifescore { proportion })
        }
    }

    /// Makes the wifescore of a chart from the quotient of its score sum by
    /// the number of notes that were judged.
    ///
    /// Returns `None` if no note was judged: such a chart has no wifescore,
    /// whatever the quotient. Returns `None` too if the quotient is a NaN or
    /// over `1.0`.
    pub fn of_quotient(quotient: Binary32, num_judged_notes: u64) -> (r: Option<Wifescore>)
        ensures
            r.is_some() <==> num_judged_notes > 0 && is_valid_proportion(quotient),
            r.is_some() ==> r.unwrap()@ == quotient,
    {
        if num_judged_notes == 0 {
            None
        } else {
            Wifescore::from_proportion(quotient)
        }
    }

    /// Returns the wifescore, scaled to a maximum of 1. It is never a NaN
    /// and never above `1.0`.
    pub fn as_proportion(self) -> (r: Binary32)
        ensures
            r == self@,
            !r.nan(),
            r.le_spec(Binary32 { bits: ONE_BITS }),
    {
        proof {
            use_type_invariant(&self);
        }
        self.proportion
    }

    /// Whether this score is numerically below `other`.
    pub fn lt(self, other: Wifescore) -> (r: bool)
        ensures
            r == (self@.ord() < other@.ord()),
    {
        proof {
            use_type_invariant(&self);
            use_type_invariant(&other);
        }
        self.proportion.lt(other.proportion)
    }

    /// Whether this score is numerically at least `other`: whether it
    /// reaches the grade of which `other` is the threshold.
    pub fn reaches(self, other: Wifescore) -> (r: bool)
        ensures
            r == (self@.ord() >= other@.ord()),
    {
        proof {
            use_type_invariant(&self);
            use_type_invariant(&other);
        }
        self.proportion.ge(other.proportion)
    }

    /// The threshold of grade D: negative infinity.
    pub fn d_threshold() -> (r: Wifescore)
        ensures
            r@.bits == 0xFF80_0000,
    {
        Wifescore { proportion: Binary32 { bits: 0xFF80_0000 } }
    }

    /// The threshold of grade C: 60%.
    pub fn c_threshold() -> (r: Wifescore)
        ensures
            r@.bits == 0x3F19_999A,
    {
        Wifescore { proportion: Binary32 { bits: 0x3F19_999A } }
    }

    /// The threshold of grade B: 70%.
    pub fn b_threshold() -> (r: Wifescore)
        ensures
            r@.bits == 0x3F33_3333,
    {
        Wifescore { proportion: Binary32 { bits: 0x3F33_3333 } }
    }

    /// The threshold of grade A: 80%.
    pub fn a_threshold() -> (r: Wifescore)
        ensures
            r@.bits == 0x3F4C_CCCD,
    {
        Wifescore { proportion: Binary32 { bits: 0x3F4C_CCCD } }
    }

    /// The threshold of grade AA: 93%.
    pub fn aa_threshold() -> (r: Wifescore)
        ensures
            r@.bits == 0x3F6E_147B,
    {
        Wifescore { proportion: Binary32 { bits: 0x3F6E_147B } }
    }

    /// The threshold of grade AAA: 99.7%.
    pub fn aaa_threshold() -> (r: Wifescore)
        ensures
            r@.bits == 0x3F7F_3B64,
    {
        Wifescore { proportion: Binary32 { bits: 0x3F7F_3B64 } }
    }

    /// The threshold of grade AAAA: 99.955%.
    pub fn aaaa_threshold() -> (r: Wifescore)
        ensures
            r@.bits == 0x3F7F_E282,
    {
        Wifescore { proportion: Binary32 { bits: 0x3F7F_E282 } }
    }

    /// The threshold of grade AAAAA: 99.996%.
    pub fn aaaaa_threshold() -> (r: Wifescore)
        ensures
            r@.bits == 0x3F7F_FD61,
    {
        Wifescore { proportion: Binary32 { bits: 0x3F7F_FD61 } }
    }
}

impl Default for Wifescore {
    /// A score of zero.
    fn default() -> (r: Wifescore)
        ensures
            r@.bits == 0,
    {
        Wifescore { proportion: Binary32 { bits: 0 } }
    }
}

/// A proportion is accepted as a wifescore exactly when it is numerically
/// `<= 1.0`; so every NaN and every proportion above `1.0` is refused.
pub proof fn lemma_valid_proportion_is_at_most_one(proportion: Binary32)
    ensures
        is_valid_proportion(proportion) <==> proportion.le_spec(Binary32 { bits: ONE_BITS }),
        proportion.nan() ==> !is_valid_proportion(proportion),
        proportion.gt_spec(Binary32 { bits: ONE_BITS }) ==> !is_valid_proportion(proportion),
{
}

} // verus!
