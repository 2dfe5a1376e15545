//! The skill timeline: a player's ratings over time, one snapshot for each
//! group of scores.
//!
//! Scores come with a group key, usually the day, and scores of one group
//! stand together. A snapshot is taken at the end of each group. It rates
//! the player over all scores from the first score on, through the last
//! score of the group: the scores of the groups before it count too.

use vstd::prelude::*;
use vstd::std_specs::cmp::PartialEqSpec;
use crate::binary32::Binary32;
use crate::skillsets::Skillsets7;
use crate::skillsets::Skillsets8;

verus! {

/// A player's ratings over time: for each group of scores its key and the
/// ratings at its snapshot, in the order of the groups.
pub struct SkillTimeline<T> {
    pub changes: Vec<(T, Skillsets8)>,
}

/// A snapshot that is due: the group that it belongs to, and the scores that
/// it rates.
#[derive(Copy, Clone, Debug, PartialEq, Eq, Structural)]
pub struct Snapshot {
    /// Index of the last score of the group. Its key is the key of the
    /// group.
    pub key_index: usize,
    /// Number of scores, from the first on, that the snapshot rates: all up
    /// to and with the last score of the group.
    pub num_scores: usize,
}

/// Whether a group ends before the score at `index`: the score is not the
/// first, and its key differs from the key before it.
pub open spec fn key_changes_at<T: PartialEq>(keys: Seq<T>, index: int) -> bool {
    0 < index < keys.len() && !keys[index - 1].eq_spec(&keys[index])
}

/// The snapshots of the groups that end within the first `upto` scores. The
/// snapshot of a group rates the scores up to and with the last score of
/// the group, and none of the next group.
pub open spec fn snapshots_within<T: PartialEq>(keys: Seq<T>, upto: int) -> Seq<Snapshot>
    decreases upto,
{
    if upto <= 0 {
        Seq::empty()
    } else {
        let earlier = snapshots_within(keys, upto - 1);
        if key_changes_at(keys, upto - 1) {
            earlier.push(Snapshot { key_index: (upto - 2) as usize, num_scores: (upto - 1) as usize })
        } else {
            earlier
        }
    }
}

/// The snapshots of a whole sequence of scores: those of the groups that
/// end within it, and the one of the last group, which rates all scores.
pub open spec fn snapshots_of<T: PartialEq>(keys: Seq<T>) -> Seq<Snapshot> {
    if keys.len() == 0 {
        Seq::empty()
    } else {
        snapshots_within(keys, keys.len() as int).push(
            Snapshot { key_index: (keys.len() - 1) as usize, num_scores: keys.len() as usize },
        )
    }
}

/// Lists the snapshots of a sequence of scores, given the group key of each
/// score.
pub fn snapshots<T: PartialEq>(keys: &Vec<T>) -> (r: Vec<Snapshot>)
    ensures
        T::obeys_eq_spec() ==> r@ == snapshots_of(keys@),
        keys@.len() == 0 <==> r@.len() == 0,
        forall|k: int|
            0 <= k < r@.len() ==> (#[trigger] r@[k]).key_index + 1 == r@[k].num_scores <= keys@.len(),
        r@.len() > 0 ==> r@.last().num_scores == keys@.len(),
{
    let mut out: Vec<Snapshot> = Vec::new();
    if keys.len() == 0 {
        return out;
    }
    assert(snapshots_within(keys@, 0) =~= Seq::<Snapshot>::empty());
    assert(snapshots_within(keys@, 1) =~= Seq::<Snapshot>::empty());
    let mut i: usize = 1;
    while i < keys.len()
        invariant
            1 <= i <= keys@.len(),
            T::obeys_eq_spec() ==> out@ == snapshots_within(keys@, i as int),
            forall|k: int|
                0 <= k < out@.len() ==> (#[trigger] out@[k]).key_index + 1 == out@[k].num_scores
                    <= keys@.len(),
        decreases keys@.len() - i,
    {
        if keys[i - 1] != keys[i] {
            out.push(Snapshot { key_index: i - 1, num_scores: i });
        }
        i += 1;
    }
    out.push(Snapshot { key_index: keys.len() - 1, num_scores: keys.len() });
    out
}

/// The values of one skillset over the first `upto` scores.
pub open spec fn column_of(scores: Seq<Skillsets7>, which: int, upto: int) -> Seq<Binary32> {
    Seq::new(upto as nat, |i: int| scores[i].values()[which])
}

/// The ratings that a snapshot aggregates: for each of the seven skillsets
/// the values of the first `num_scores` scores, in the order of the scores.
pub fn rated_columns(scores: &Vec<Skillsets7>, num_scores: usize) -> (r: Vec<Vec<Binary32>>)
    requires
        num_scores <= scores@.len(),
    ensures
        r@.len() == 7,
        forall|c: int| 0 <= c < 7 ==> (#[trigger] r@[c])@ == column_of(scores@, c, num_scores as int),
{
    let mut out: Vec<Vec<Binary32>> = Vec::new();
    let mut c: usize = 0;
    while c < 7
        invariant
            0 <= c <= 7,
            num_scores <= scores@.len(),
            out@.len() == c,
            forall|d: int|
                0 <= d < c ==> (#[trigger] out@[d])@ == column_of(scores@, d, num_scores as int),
        decreases 7 - c,
    {
        let mut column: Vec<Binary32> = Vec::new();
        let mut i: usize = 0;
        while i < num_scores
            invariant
                0 <= i <= num_scores <= scores@.len(),
                0 <= c < 7,
                column@ == column_of(scores@, c as int, i as int),
            decreases num_scores - i,
        {
            let values = scores[i].to_array();
            column.push(values[c]);
            assert(column@ =~= column_of(scores@, c as int, i + 1));
            i += 1;
        }
        out.push(column);
        c += 1;
    }
    out
}

} // verus!
