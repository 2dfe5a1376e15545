//! Judges: named sets of timing windows, and the classification of a tap
//! deviation against them.

use vstd::prelude::*;
use crate::binary32::Binary32;
use crate::structs::TapJudgement;

verus! {

/// Specification of a judgement level: six ascending tap windows (the sixth,
/// miss, is everything beyond `bad_window`), the hold, roll and mine windows,
/// and the factor by which the scoring curves are stretched. Windows are in
/// seconds.
#[derive(Clone, Copy, Debug)]
pub struct Judge {
    pub name: &'static str,
    pub marvelous_window: Binary32,
    pub perfect_window: Binary32,
    pub great_window: Binary32,
    pub good_window: Binary32,
    pub bad_window: Binary32,
    pub hold_window: Binary32,
    pub roll_window: Binary32,
    /// The window in which a mine can be hit, as a +/- value.
    pub mine_window: Binary32,
    pub timing_scale: Binary32,
}

/// Whether `w` is a number that is not below zero.
pub open spec fn is_window(w: Binary32) -> bool {
    !w.nan() && w.ord() >= 0
}

impl Judge {
    /// The invariant of a judge: every window is a number, none is negative,
    /// and the tap windows do not shrink from marvelous through bad.
    pub open spec fn wf(self) -> bool {
        &&& is_window(self.marvelous_window)
        &&& is_window(self.perfect_window)
        &&& is_window(self.great_window)
        &&& is_window(self.good_window)
        &&& is_window(self.bad_window)
        &&& is_window(self.hold_window)
        &&& is_window(self.roll_window)
        &&& is_window(self.mine_window)
        &&& self.marvelous_window.le_spec(self.perfect_window)
        &&& self.perfect_window.le_spec(self.great_window)
        &&& self.great_window.le_spec(self.good_window)
        &&& self.good_window.le_spec(self.bad_window)
    }

    /// Whether the windows and the timing scale of the judge have these bit
    /// patterns, in the order marvelous, perfect, great, good, bad, hold,
    /// roll, mine, timing scale.
    pub open spec fn has_bits(self, bits: Seq<u32>) -> bool {
        &&& bits.len() == 9
        &&& self.marvelous_window.bits == bits[0]
        &&& self.perfect_window.bits == bits[1]
        &&& self.great_window.bits == bits[2]
        &&& self.good_window.bits == bits[3]
        &&& self.bad_window.bits == bits[4]
        &&& self.hold_window.bits == bits[5]
        &&& self.roll_window.bits == bits[6]
        &&& self.mine_window.bits == bits[7]
        &&& self.timing_scale.bits == bits[8]
    }

    /// The judgement of a deviation: the first of marvelous, perfect, great,
    /// good and bad whose window is `>=` the deviation's absolute value, and
    /// miss where there is none.
    pub open spec fn classify_spec(self, deviation: Binary32) -> TapJudgement {
        let d = deviation.abs_spec();
        if d.le_spec(self.marvelous_window) {
            TapJudgement::Marvelous
        } else if d.le_spec(self.perfect_window) {
            TapJudgement::Perfect
        } else if d.le_spec(self.great_window) {
            TapJudgement::Great
        } else if d.le_spec(self.good_window) {
            TapJudgement::Good
        } else if d.le_spec(self.bad_window) {
            TapJudgement::Bad
        } else {
            TapJudgement::Miss
        }
    }

    /// Whether the invariant of a judge holds.
    pub fn is_valid(&self) -> (r: bool)
        ensures
            r == self.wf(),
    {
        let zero = Binary32::zero();
        self.marvelous_window.ge(zero) && self.perfect_window.ge(zero) && self.great_window.ge(
            zero,
        ) && self.good_window.ge(zero) && self.bad_window.ge(zero) && self.hold_window.ge(zero)
            && self.roll_window.ge(zero) && self.mine_window.ge(zero) && self.marvelous_window.le(
            self.perfect_window,
        ) && self.perfect_window.le(self.great_window) && self.great_window.le(self.good_window)
            && self.good_window.le(self.bad_window)
    }

    /// Classifies a tap deviation in seconds to a judgement. The deviation
    /// may be negative.
    pub fn classify(&self, deviation: Binary32) -> (r: TapJudgement)
        ensures
            r == self.classify_spec(deviation),
    {
        let deviation = deviation.abs();
        if deviation.le(self.marvelous_window) {
            TapJudgement::Marvelous
        } else if deviation.le(self.perfect_window) {
            TapJudgement::Perfect
        } else if deviation.le(self.great_window) {
            TapJudgement::Great
        } else if deviation.le(self.good_window) {
            TapJudgement::Good
        } else if deviation.le(self.bad_window) {
            TapJudgement::Bad
        } else {
            TapJudgement::Miss
        }
    }

    /// Whether the given deviation is a combo breaker: whether its absolute
    /// value exceeds the great window.
    pub fn is_cb(&self, deviation: Binary32) -> (r: bool)
        ensures
            r == deviation.abs_spec().gt_spec(self.great_window),
    {
        deviation.abs().gt(self.great_window)
    }

    /// Whether the given deviation is considered marvelous.
    pub fn is_marv(&self, deviation: Binary32) -> (r: bool)
        ensures
            r == (self.classify_spec(deviation) == TapJudgement::Marvelous),
    {
        self.classify(deviation) == TapJudgement::Marvelous
    }

    /// Whether the given deviation is considered perfect.
    pub fn is_perf(&self, deviation: Binary32) -> (r: bool)
        ensures
            r == (self.classify_spec(deviation) == TapJudgement::Perfect),
    {
        self.classify(deviation) == TapJudgement::Perfect
    }

    /// Whether the given deviation is considered great.
    pub fn is_great(&self, deviation: Binary32) -> (r: bool)
        ensures
            r == (self.classify_spec(deviation) == TapJudgement::Great),
    {
        self.classify(deviation) == TapJudgement::Great
    }

    /// Whether the given deviation is considered good.
    pub fn is_good(&self, deviation: Binary32) -> (r: bool)
        ensures
            r == (self.classify_spec(deviation) == TapJudgement::Good),
    {
        self.classify(deviation) == TapJudgement::Good
    }

    /// Whether the given deviation is considered bad.
    pub fn is_bad(&self, deviation: Binary32) -> (r: bool)
        ensures
            r == (self.classify_spec(deviation) == TapJudgement::Bad),
    {
        self.classify(deviation) == TapJudgement::Bad
    }

    /// Whether the given deviation is considered a miss.
    pub fn is_miss(&self, deviation: Binary32) -> (r: bool)
        ensures
            r == (self.classify_spec(deviation) == TapJudgement::Miss),
    {
        self.classify(deviation) == TapJudgement::Miss
    }
}

/// A judgement never gets better as the deviation moves away from zero: if
/// `|near| <= |far|`, then `far` is judged at least as severely as `near`.
/// This holds for every judge, whatever its windows.
pub proof fn lemma_classify_monotonic(judge: Judge, near: Binary32, far: Binary32)
    requires
        near.abs_spec().le_spec(far.abs_spec()),
    ensures
        judge.classify_spec(near).severity() <= judge.classify_spec(far).severity(),
{
}

/// With a judge that satisfies its invariant, a deviation is a miss exactly
/// when its absolute value is not within the bad window, and a combo breaker
/// exactly when it is judged worse than great, a NaN aside.
pub proof fn lemma_classify_thresholds(judge: Judge, deviation: Binary32)
    requires
        judge.wf(),
        !deviation.nan(),
    ensures
        judge.classify_spec(deviation) == TapJudgement::Miss <==> deviation.abs_spec().gt_spec(
            judge.bad_window,
        ),
        deviation.abs_spec().gt_spec(judge.great_window) <==> judge.classify_spec(
            deviation,
        ).severity() > TapJudgement::Great.severity(),
{
}

fn preset(name: &'static str, windows: [u32; 9]) -> (r: Judge)
    ensures
        r.name == name,
        r.has_bits(windows@),
{
    Judge {
        name,
        marvelous_window: Binary32 { bits: windows[0] },
        perfect_window: Binary32 { bits: windows[1] },
        great_window: Binary32 { bits: windows[2] },
        good_window: Binary32 { bits: windows[3] },
        bad_window: Binary32 { bits: windows[4] },
        hold_window: Binary32 { bits: windows[5] },
        roll_window: Binary32 { bits: windows[6] },
        mine_window: Binary32 { bits: windows[7] },
        timing_scale: Binary32 { bits: windows[8] },
    }
}

/// The most forgiving judge: windows of 33.75, 67.5, 135, 202.5 and 270 ms,
/// timing scale 1.50.
pub fn j1() -> (r: Judge)
    ensures
        r.wf(),
        r.name@ == "J1"@,
        r.has_bits(
            seq![
                0x3D0A_3D71u32,
                0x3D8A_3D71u32,
                0x3E0A_3D71u32,
                0x3E4F_5C29u32,
                0x3E8A_3D71u32,
                0x3EC0_0000u32,
                0x3F40_0000u32,
                0x3D99_999Au32,
                0x3FC0_0000u32,
            ],
        ),
{
    preset(
        "J1",
        [
            0x3D0A_3D71,
            0x3D8A_3D71,
            0x3E0A_3D71,
            0x3E4F_5C29,
            0x3E8A_3D71,
            0x3EC0_0000,
            0x3F40_0000,
            0x3D99_999A,
            0x3FC0_0000,
        ],
    )
}

/// Windows of 29.925, 59.85, 119.7, 179.55 and 239.4 ms, timing scale 1.33.
pub fn j2() -> (r: Judge)
    ensures
        r.wf(),
        r.name@ == "J2"@,
        r.has_bits(
            seq![
                0x3CF5_2546u32,
                0x3D75_2546u32,
                0x3DF5_2546u32,
                0x3E37_DBF5u32,
                0x3E75_2546u32,
                0x3EAA_3D71u32,
                0x3F2A_3D71u32,
                0x3D99_999Au32,
                0x3FAA_3D71u32,
            ],
        ),
{
    preset(
        "J2",
        [
            0x3CF5_2546,
            0x3D75_2546,
            0x3DF5_2546,
            0x3E37_DBF5,
            0x3E75_2546,
            0x3EAA_3D71,
            0x3F2A_3D71,
            0x3D99_999A,
            0x3FAA_3D71,
        ],
    )
}

/// Windows of 26.1, 52.2, 104.4, 156.6 and 208.8 ms, timing scale 1.16.
pub fn j3() -> (r: Judge)
    ensures
        r.wf(),
        r.name@ == "J3"@,
        r.has_bits(
            seq![
                0x3CD5_CFABu32,
                0x3D55_CFABu32,
                0x3DD5_CFABu32,
                0x3E20_5BC0u32,
                0x3E55_CFABu32,
                0x3E94_7AE1u32,
                0x3F14_7AE1u32,
                0x3D99_999Au32,
                0x3F94_7AE1u32,
            ],
        ),
{
    preset(
        "J3",
        [
            0x3CD5_CFAB,
            0x3D55_CFAB,
            0x3DD5_CFAB,
            0x3E20_5BC0,
            0x3E55_CFAB,
            0x3E94_7AE1,
            0x3F14_7AE1,
            0x3D99_999A,
            0x3F94_7AE1,
        ],
    )
}

/// The default judge for official scoring: windows of 22.5, 45, 90, 135 and
/// 180 ms, timing scale 1.00.
pub fn j4() -> (r: Judge)
    ensures
        r.wf(),
        r.name@ == "J4"@,
        r.has_bits(
            seq![
                0x3CB8_51ECu32,
                0x3D38_51ECu32,
                0x3DB8_51ECu32,
                0x3E0A_3D71u32,
                0x3E38_51ECu32,
                0x3E80_0000u32,
                0x3F00_0000u32,
                0x3D99_999Au32,
                0x3F80_0000u32,
            ],
        ),
{
    preset(
        "J4",
        [
            0x3CB8_51EC,
            0x3D38_51EC,
            0x3DB8_51EC,
            0x3E0A_3D71,
            0x3E38_51EC,
            0x3E80_0000,
            0x3F00_0000,
            0x3D99_999A,
            0x3F80_0000,
        ],
    )
}

/// Windows of 18.9, 37.8, 75.6 and 113.4 ms, bad locked at 180 ms, timing
/// scale 0.84.
pub fn j5() -> (r: Judge)
    ensures
        r.wf(),
        r.name@ == "J5"@,
        r.has_bits(
            seq![
                0x3C9A_D42Cu32,
                0x3D1A_D42Cu32,
                0x3D9A_D42Cu32,
                0x3DE8_3E42u32,
                0x3E38_51ECu32,
                0x3E57_0A3Du32,
                0x3ED7_0A3Du32,
                0x3D99_999Au32,
                0x3F57_0A3Du32,
            ],
        ),
{
    preset(
        "J5",
        [
            0x3C9A_D42C,
            0x3D1A_D42C,
            0x3D9A_D42C,
            0x3DE8_3E42,
            0x3E38_51EC,
            0x3E57_0A3D,
            0x3ED7_0A3D,
            0x3D99_999A,
            0x3F57_0A3D,
        ],
    )
}

/// Windows of 14.85, 29.7, 59.4 and 89.1 ms, bad locked at 180 ms, timing
/// scale 0.66.
pub fn j6() -> (r: Judge)
    ensures
        r.wf(),
        r.name@ == "J6"@,
        r.has_bits(
            seq![
                0x3C73_4D6Au32,
                0x3CF3_4D6Au32,
                0x3D73_4D6Au32,
                0x3DB6_7A10u32,
                0x3E38_51ECu32,
                0x3E28_F5C3u32,
                0x3EA8_F5C3u32,
                0x3D99_999Au32,
                0x3F28_F5C3u32,
            ],
        ),
{
    preset(
        "J6",
        [
            0x3C73_4D6A,
            0x3CF3_4D6A,
            0x3D73_4D6A,
            0x3DB6_7A10,
            0x3E38_51EC,
            0x3E28_F5C3,
            0x3EA8_F5C3,
            0x3D99_999A,
            0x3F28_F5C3,
        ],
    )
}

/// Half the tap windows of J4: 11.25, 22.5, 45 and 67.5 ms, bad locked at
/// 180 ms, timing scale 0.50.
pub fn j7() -> (r: Judge)
    ensures
        r.wf(),
        r.name@ == "J7"@,
        r.has_bits(
            seq![
                0x3C38_51ECu32,
                0x3CB8_51ECu32,
                0x3D38_51ECu32,
                0x3D8A_3D71u32,
                0x3E38_51ECu32,
                0x3E00_0000u32,
                0x3E80_0000u32,
                0x3D99_999Au32,
                0x3F00_0000u32,
            ],
        ),
{
    preset(
        "J7",
        [
            0x3C38_51EC,
            0x3CB8_51EC,
            0x3D38_51EC,
            0x3D8A_3D71,
            0x3E38_51EC,
            0x3E00_0000,
            0x3E80_0000,
            0x3D99_999A,
            0x3F00_0000,
        ],
    )
}

/// Half the tap windows of J6: 7.425, 14.85, 29.7 and 44.55 ms, bad locked
/// at 180 ms, timing scale 0.33.
pub fn j8() -> (r: Judge)
    ensures
        r.wf(),
        r.name@ == "J8"@,
        r.has_bits(
            seq![
                0x3BF3_4D6Au32,
                0x3C73_4D6Au32,
                0x3CF3_4D6Au32,
                0x3D36_7A10u32,
                0x3E38_51ECu32,
                0x3DA8_F5C3u32,
                0x3E80_0000u32,
                0x3D99_999Au32,
                0x3EA8_F5C3u32,
            ],
        ),
{
    preset(
        "J8",
        [
            0x3BF3_4D6A,
            0x3C73_4D6A,
            0x3CF3_4D6A,
            0x3D36_7A10,
            0x3E38_51EC,
            0x3DA8_F5C3,
            0x3E80_0000,
            0x3D99_999A,
            0x3EA8_F5C3,
        ],
    )
}

/// Also called "Justice": windows of 4.5, 9, 18 and 27 ms, bad locked at
/// 180 ms, timing scale 0.20.
pub fn j9() -> (r: Judge)
    ensures
        r.wf(),
        r.name@ == "J9"@,
        r.has_bits(
            seq![
                0x3B93_74BCu32,
                0x3C13_74BCu32,
                0x3C93_74BCu32,
                0x3CDD_2F1Bu32,
                0x3E38_51ECu32,
                0x3D4C_CCCDu32,
                0x3E80_0000u32,
                0x3D99_999Au32,
                0x3E4C_CCCDu32,
            ],
        ),
{
    preset(
        "J9",
        [
            0x3B93_74BC,
            0x3C13_74BC,
            0x3C93_74BC,
            0x3CDD_2F1B,
            0x3E38_51EC,
            0x3D4C_CCCD,
            0x3E80_0000,
            0x3D99_999A,
            0x3E4C_CCCD,
        ],
    )
}

} // verus!
