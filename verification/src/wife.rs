//! The Wife scoring systems: the weights with which misses, dropped holds
//! and hit mines enter a score, and the threshold from which a deviation
//! counts as a miss. The curves that turn a deviation within the threshold
//! into a score are floating-point formulas and are evaluated by the caller.

use vstd::prelude::*;
use crate::binary32::Binary32;
use crate::judge::Judge;
use crate::structs::Hit;

verus! {

/// 2nd revision of Etterna's Wife scoring system.
#[derive(Copy, Clone, Debug, PartialEq, Eq, Structural)]
pub struct Wife2;

/// 3rd revision of Etterna's Wife scoring system.
#[derive(Copy, Clone, Debug, PartialEq, Eq, Structural)]
pub struct Wife3;

/// A revision of the Wife scoring system.
#[derive(Copy, Clone, Debug, PartialEq, Eq, Structural)]
pub enum Wife {
    Wife2,
    Wife3,
}

impl Wife2 {
    /// Score value of a missed note: `-4.0`.
    pub fn miss_weight() -> (r: Binary32)
        ensures
            r.bits == 0xC080_0000,
    {
        Binary32 { bits: 0xC080_0000 }
    }

    /// Score value of a dropped hold: `-3.0`.
    pub fn hold_drop_weight() -> (r: Binary32)
        ensures
            r.bits == 0xC040_0000,
    {
        Binary32 { bits: 0xC040_0000 }
    }

    /// Score value of a hit mine: `-4.0`.
    pub fn mine_hit_weight() -> (r: Binary32)
        ensures
            r.bits == 0xC080_0000,
    {
        Binary32 { bits: 0xC080_0000 }
    }
}

impl Wife3 {
    /// Score value of a missed note: `-2.75`.
    pub fn miss_weight() -> (r: Binary32)
        ensures
            r.bits == 0xC030_0000,
    {
        Binary32 { bits: 0xC030_0000 }
    }

    /// Score value of a dropped hold: `-2.25`.
    pub fn hold_drop_weight() -> (r: Binary32)
        ensures
            r.bits == 0xC010_0000,
    {
        Binary32 { bits: 0xC010_0000 }
    }

    /// Score value of a hit mine: `-3.5`.
    pub fn mine_hit_weight() -> (r: Binary32)
        ensures
            r.bits == 0xC060_0000,
    {
        Binary32 { bits: 0xC060_0000 }
    }
}

/// What a note hit contributes to a score.
#[derive(Copy, Clone, Debug, PartialEq, Eq, Structural)]
pub enum Contribution {
    /// The value of the scoring curve at this deviation.
    Curve { deviation: Binary32 },
    /// This fixed weight.
    Weight { weight: Binary32 },
}

impl Wife {
    pub open spec fn miss_weight_spec(self) -> Binary32 {
        match self {
            Wife::Wife2 => Binary32 { bits: 0xC080_0000 },
            Wife::Wife3 => Binary32 { bits: 0xC030_0000 },
        }
    }

    /// Score value of a missed note.
    pub fn miss_weight(self) -> (r: Binary32)
        ensures
            r == self.miss_weight_spec(),
    {
        match self {
            Wife::Wife2 => Wife2::miss_weight(),
            Wife::Wife3 => Wife3::miss_weight(),
        }
    }

    /// Score value of a dropped hold.
    pub fn hold_drop_weight(self) -> (r: Binary32)
        ensures
            r.bits == match self {
                Wife::Wife2 => 0xC040_0000u32,
                Wife::Wife3 => 0xC010_0000u32,
            },
    {
        match self {
            Wife::Wife2 => Wife2::hold_drop_weight(),
            Wife::Wife3 => Wife3::hold_drop_weight(),
        }
    }

    /// Score value of a hit mine.
    pub fn mine_hit_weight(self) -> (r: Binary32)
        ensures
            r.bits == match self {
                Wife::Wife2 => 0xC080_0000u32,
                Wife::Wife3 => 0xC060_0000u32,
            },
    {
        match self {
            Wife::Wife2 => Wife2::mine_hit_weight(),
            Wife::Wife3 => Wife3::mine_hit_weight(),
        }
    }

    /// What a deviation contributes: the miss weight where its absolute
    /// value is at or beyond the judge's bad window, the threshold of a
    /// miss, and else the value of the curve.
    pub open spec fn contribution_of(self, deviation: Binary32, judge: Judge) -> Contribution {
        if deviation.abs_spec().ge_spec(judge.bad_window) {
            Contribution::Weight { weight: self.miss_weight_spec() }
        } else {
            Contribution::Curve { deviation }
        }
    }

    /// What a deviation contributes to a score.
    pub fn calc_deviation(self, deviation: Binary32, judge: &Judge) -> (r: Contribution)
        ensures
            r == self.contribution_of(deviation, *judge),
    {
        if deviation.abs().ge(judge.bad_window) {
            Contribution::Weight { weight: self.miss_weight() }
        } else {
            Contribution::Curve { deviation }
        }
    }

    /// What a note hit contributes: what its deviation contributes, and the
    /// miss weight for a note that was not hit.
    pub fn calc(self, hit: Hit, judge: &Judge) -> (r: Contribution)
        ensures
            r == match hit {
                Hit::Hit { deviation } => self.contribution_of(deviation, *judge),
                Hit::Miss => Contribution::Weight { weight: self.miss_weight_spec() },
            },
    {
        match hit {
            Hit::Hit { deviation } => self.calc_deviation(deviation, judge),
            Hit::Miss => Contribution::Weight { weight: self.miss_weight() },
        }
    }
}

/// A hit that the judge classifies as a miss contributes the miss weight,
/// and so does a hit at the very edge of the bad window; every hit strictly
/// within the bad window contributes the value of the curve.
pub proof fn lemma_miss_contributes_miss_weight(wife: Wife, deviation: Binary32, judge: Judge)
    requires
        judge.wf(),
        !deviation.nan(),
    ensures
        judge.classify_spec(deviation) == crate::structs::TapJudgement::Miss ==> wife.contribution_of(
            deviation,
            judge,
        ) == (Contribution::Weight { weight: wife.miss_weight_spec() }),
        deviation.abs_spec().lt_spec(judge.bad_window) ==> wife.contribution_of(deviation, judge)
            == (Contribution::Curve { deviation }),
{
}

/// No weight is a reward: the weights of both revisions are negative
/// numbers.
pub proof fn lemma_weights_are_penalties(wife: Wife)
    ensures
        wife.miss_weight_spec().lt_spec(Binary32 { bits: 0 }),
{
}

} // verus!
