//! The fastest note subset: the run of consecutive notes of a lane that was
//! played at the highest speed.
//!
//! A subset of `n` notes is a window from a note to the `n`-th note after
//! it, and its speed is `n` divided by the seconds between the two. The
//! caller computes the speed of each window; this module lists the windows
//! and picks the fastest. Where windows are equally fast, a longer one is
//! the more impressive and wins; among windows of one length the first
//! wins.

use vstd::prelude::*;
use crate::binary32::Binary32;

verus! {

/// Information about the fastest subset of a lane.
#[derive(Copy, Clone, Debug, PartialEq, Eq, Structural)]
pub struct FastestComboInfo {
    pub start_second: Binary32,
    pub end_second: Binary32,
    pub length: u32,
    pub speed: Binary32,
}

/// A window of notes: the indices of its first note and of the note at which
/// it ends.
#[derive(Copy, Clone, Debug, PartialEq, Eq, Structural)]
pub struct NoteWindow {
    pub start: usize,
    pub end: usize,
}

/// The result of a search that found nothing: all zero.
pub open spec fn no_combo() -> FastestComboInfo {
    FastestComboInfo {
        start_second: Binary32 { bits: 0 },
        end_second: Binary32 { bits: 0 },
        length: 0,
        speed: Binary32 { bits: 0 },
    }
}

/// The windows of `length` notes in a lane of `num_notes` notes, from the
/// first note on.
pub open spec fn windows_of_length(num_notes: int, length: int) -> Seq<NoteWindow> {
    Seq::new(
        (num_notes - length) as nat,
        |i: int| NoteWindow { start: i as usize, end: (i + length) as usize },
    )
}

/// The windows of `from` up to, and without, `to` notes: shorter windows
/// first.
pub open spec fn windows_between(num_notes: int, from: int, to: int) -> Seq<NoteWindow>
    decreases to - from,
{
    if to <= from {
        Seq::empty()
    } else {
        windows_between(num_notes, from, to - 1) + windows_of_length(num_notes, to - 1)
    }
}

/// The windows that the search visits, in the order in which it visits
/// them: none where the lane has at most `min_num_notes` notes, and else
/// those of `min_num_notes` up to `max_num_notes` notes that fit the lane.
pub open spec fn subset_windows_spec(
    num_notes: int,
    min_num_notes: int,
    max_num_notes: int,
) -> Seq<NoteWindow> {
    if num_notes <= min_num_notes {
        Seq::empty()
    } else if num_notes <= max_num_notes {
        windows_between(num_notes, min_num_notes, num_notes)
    } else {
        windows_between(num_notes, min_num_notes, max_num_notes + 1)
    }
}

/// Whether each window lies within a lane of `num_notes` notes and spans at
/// most `u32::MAX` notes.
pub open spec fn windows_fit(windows: Seq<NoteWindow>, num_notes: int) -> bool {
    forall|k: int|
        0 <= k < windows.len() ==> (#[trigger] windows[k]).start <= windows[k].end < num_notes
            && windows[k].end - windows[k].start <= u32::MAX
}

/// The number of notes that a window spans.
pub open spec fn length_of(window: NoteWindow) -> u32 {
    (window.end - window.start) as u32
}

/// Whether a window of this speed and length beats the pick so far: it is
/// faster, or as fast and longer.
pub open spec fn beats(speed: Binary32, length: u32, pick: FastestComboInfo) -> bool {
    speed.gt_spec(pick.speed) || (speed.same_number_spec(pick.speed) && length > pick.length)
}

/// The fastest of the first `upto` windows: a window replaces the pick
/// before it when it beats it, and the search starts from [`no_combo`]. So
/// of two windows of one speed the longer wins, and of two windows of one
/// speed and one length the earlier; a window whose speed is negative or a
/// NaN never wins.
pub open spec fn fastest_within(
    seconds: Seq<Binary32>,
    windows: Seq<NoteWindow>,
    speeds: Seq<Binary32>,
    upto: int,
) -> FastestComboInfo
    decreases upto,
{
    if upto <= 0 {
        no_combo()
    } else {
        let before = fastest_within(seconds, windows, speeds, upto - 1);
        let window = windows[upto - 1];
        if beats(speeds[upto - 1], length_of(window), before) {
            FastestComboInfo {
                start_second: seconds[window.start as int],
                end_second: seconds[window.end as int],
                length: length_of(window),
                speed: speeds[upto - 1],
            }
        } else {
            before
        }
    }
}

/// Lists the windows of which [`pick_fastest`] needs the speed.
pub fn subset_windows(num_notes: usize, min_num_notes: u32, max_num_notes: u32) -> (r: Vec<
    NoteWindow,
>)
    requires
        min_num_notes <= max_num_notes,
    ensures
        r@ == subset_windows_spec(num_notes as int, min_num_notes as int, max_num_notes as int),
        windows_fit(r@, num_notes as int),
{
    let mut out: Vec<NoteWindow> = Vec::new();
    let min: u64 = min_num_notes as u64;
    let len: u64 = num_notes as u64;
    if len <= min {
        return out;
    }
    let end: u64 = if len <= max_num_notes as u64 {
        len
    } else {
        max_num_notes as u64 + 1
    };
    let mut n: u64 = min;
    while n < end
        invariant
            min <= n <= end <= len,
            len == num_notes,
            end <= max_num_notes + 1,
            out@ == windows_between(num_notes as int, min as int, n as int),
            windows_fit(out@, num_notes as int),
        decreases end - n,
    {
        let ghost before = out@;
        let count: usize = (len - n) as usize;
        let length: usize = n as usize;
        let mut i: usize = 0;
        while i < count
            invariant
                0 <= i <= count,
                count + length == num_notes,
                length == n,
                n <= u32::MAX,
                out@ == before + windows_of_length(num_notes as int, n as int).take(i as int),
                windows_fit(out@, num_notes as int),
            decreases count - i,
        {
            out.push(NoteWindow { start: i, end: i + length });
            assert(windows_of_length(num_notes as int, n as int).take(i + 1)
                =~= windows_of_length(num_notes as int, n as int).take(i as int).push(
                NoteWindow { start: i, end: (i + length) as usize },
            ));
            assert(out@ =~= before + windows_of_length(num_notes as int, n as int).take(i + 1));
            i += 1;
        }
        assert(windows_of_length(num_notes as int, n as int).take(count as int)
            =~= windows_of_length(num_notes as int, n as int));
        n += 1;
    }
    out
}

/// Picks the fastest window, given the speed of each.
///
/// `seconds` are the times of the lane's notes, and `speeds[k]` is the speed
/// of `windows[k]`.
pub fn pick_fastest(
    seconds: &Vec<Binary32>,
    windows: &Vec<NoteWindow>,
    speeds: &Vec<Binary32>,
) -> (r: FastestComboInfo)
    requires
        windows@.len() == speeds@.len(),
        windows_fit(windows@, seconds@.len() as int),
    ensures
        r == fastest_within(seconds@, windows@, speeds@, windows@.len() as int),
{
    let mut fastest = FastestComboInfo {
        start_second: Binary32::zero(),
        end_second: Binary32::zero(),
        length: 0,
        speed: Binary32::zero(),
    };
    let mut k: usize = 0;
    while k < windows.len()
        invariant
            0 <= k <= windows@.len(),
            windows@.len() == speeds@.len(),
            windows_fit(windows@, seconds@.len() as int),
            fastest == fastest_within(seconds@, windows@, speeds@, k as int),
        decreases windows@.len() - k,
    {
        let window = windows[k];
        let length: u32 = (window.end - window.start) as u32;
        if speeds[k].gt(fastest.speed) || (speeds[k].same_number(fastest.speed) && length
            > fastest.length) {
            fastest =
            FastestComboInfo {
                start_second: seconds[window.start],
                end_second: seconds[window.end],
                length,
                speed: speeds[k],
            };
        }
        k += 1;
    }
    fastest
}

/// The end of the first combo of a score: the index of the first combo
/// breaker, and the number of notes where there is none.
pub fn first_combo_end(are_cbs: &Vec<bool>) -> (r: usize)
    ensures
        r <= are_cbs@.len(),
        forall|i: int| 0 <= i < r ==> !are_cbs@[i],
        r < are_cbs@.len() ==> are_cbs@[r as int],
{
    let mut i: usize = 0;
    while i < are_cbs.len()
        invariant
            0 <= i <= are_cbs@.len(),
            forall|k: int| 0 <= k < i ==> !are_cbs@[k],
        decreases are_cbs@.len() - i,
    {
        if are_cbs[i] {
            return i;
        }
        i += 1;
    }
    i
}

/// Of the fastest combo so far and a candidate, the one that counts: the
/// candidate where its speed is `>` the other's, and else the one so far.
pub fn keep_faster(so_far: FastestComboInfo, candidate: FastestComboInfo) -> (r: FastestComboInfo)
    ensures
        r == if candidate.speed.gt_spec(so_far.speed) {
            candidate
        } else {
            so_far
        },
{
    if candidate.speed.gt(so_far.speed) {
        candidate
    } else {
        so_far
    }
}

impl Default for FastestComboInfo {
    fn default() -> (r: FastestComboInfo)
        ensures
            r == no_combo(),
    {
        FastestComboInfo {
            start_second: Binary32::zero(),
            end_second: Binary32::zero(),
            length: 0,
            speed: Binary32::zero(),
        }
    }
}

/// Whether the pick is window `k` with the speed `speeds[k]`.
pub open spec fn is_pick_of(
    seconds: Seq<Binary32>,
    windows: Seq<NoteWindow>,
    speeds: Seq<Binary32>,
    pick: FastestComboInfo,
    k: int,
) -> bool {
    &&& pick.speed == speeds[k]
    &&& pick.length == length_of(windows[k])
    &&& pick.start_second == seconds[windows[k].start as int]
    &&& pick.end_second == seconds[windows[k].end as int]
}

/// The pick is the fastest: its speed is zero or more, and no window beats
/// it. It is the first of the windows that nothing beats: every window
/// before it is slower, or as fast and shorter, or has no speed.
pub proof fn lemma_pick_is_fastest(
    seconds: Seq<Binary32>,
    windows: Seq<NoteWindow>,
    speeds: Seq<Binary32>,
    upto: int,
)
    requires
        0 <= upto <= windows.len(),
        windows.len() == speeds.len(),
    ensures
        ({
            let pick = fastest_within(seconds, windows, speeds, upto);
            &&& !pick.speed.nan()
            &&& pick.speed.ord() >= 0
            &&& forall|m: int|
                0 <= m < upto ==> !beats(#[trigger] speeds[m], length_of(windows[m]), pick)
            &&& pick == no_combo() || exists|k: int|
                {
                    &&& 0 <= k < upto
                    &&& #[trigger] is_pick_of(seconds, windows, speeds, pick, k)
                    &&& forall|m: int|
                        0 <= m < k ==> (#[trigger] speeds[m]).nan() || speeds[m].lt_spec(pick.speed)
                            || (speeds[m].same_number_spec(pick.speed) && length_of(windows[m])
                            < pick.length)
                }
        }),
    decreases upto,
{
    if upto > 0 {
        lemma_pick_is_fastest(seconds, windows, speeds, upto - 1);
        let before = fastest_within(seconds, windows, speeds, upto - 1);
        let pick = fastest_within(seconds, windows, speeds, upto);
        if beats(speeds[upto - 1], length_of(windows[upto - 1]), before) {
            assert(is_pick_of(seconds, windows, speeds, pick, upto - 1));
            assert forall|m: int| 0 <= m < upto - 1 implies (#[trigger] speeds[m]).nan()
                || speeds[m].lt_spec(pick.speed) || (speeds[m].same_number_spec(pick.speed)
                && length_of(windows[m]) < pick.length) by {
                assert(!beats(speeds[m], length_of(windows[m]), before));
            }
        } else if before != no_combo() {
            let k = choose|k: int|
                {
                    &&& 0 <= k < upto - 1
                    &&& #[trigger] is_pick_of(seconds, windows, speeds, before, k)
                    &&& forall|m: int|
                        0 <= m < k ==> (#[trigger] speeds[m]).nan() || speeds[m].lt_spec(
                            before.speed,
                        ) || (speeds[m].same_number_spec(before.speed) && length_of(windows[m])
                            < before.length)
                };
            assert(is_pick_of(seconds, windows, speeds, pick, k));
        }
    }
}

} // verus!
