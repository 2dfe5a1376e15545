//! The naive scoring system: every hit, in order, claims the closest note
//! that is still free.

use vstd::prelude::*;
use crate::binary32::Binary32;
use crate::judge::is_window;
use crate::judge::Judge;
use crate::rescore::claimable;
use crate::rescore::claimed_deviations;
use crate::rescore::count_none;
use crate::rescore::is_deviation_table;
use crate::rescore::is_identity_assignment;
use crate::rescore::is_table_of_identical_times;
use crate::rescore::LaneAssignment;
use crate::rescore::lemma_claimed_deviations_of_identity;
use crate::rescore::lemma_count_none_of_all_assigned;
use crate::rescore::points_back;

verus! {

/// For each note, whether a hit before hit `i` has claimed it.
pub open spec fn claimed_before(hit_of_note: Seq<Option<usize>>, i: int) -> Seq<bool> {
    Seq::new(
        hit_of_note.len(),
        |j: int|
            match hit_of_note[j] {
                Some(k) => k < i,
                None => false,
            },
    )
}

/// For each note, whether a hit has claimed it.
pub open spec fn taken(hit_of_note: Seq<Option<usize>>) -> Seq<bool> {
    Seq::new(hit_of_note.len(), |j: int| hit_of_note[j].is_some())
}

/// Whether a hit with deviations `row` may claim note `j`: the note is free
/// and the deviation from it is claimable.
pub open spec fn naive_candidate(
    row: Seq<Binary32>,
    claimed: Seq<bool>,
    window: Binary32,
    j: int,
) -> bool {
    0 <= j < row.len() && !claimed[j] && claimable(row[j], window)
}

/// Whether note `j` is the note that a hit with deviations `row` claims: of
/// the notes that it may claim the one with the least deviation, and of
/// several such notes the first.
pub open spec fn is_naive_pick(
    row: Seq<Binary32>,
    claimed: Seq<bool>,
    window: Binary32,
    j: int,
) -> bool {
    &&& naive_candidate(row, claimed, window, j)
    &&& forall|k: int| #[trigger]
        naive_candidate(row, claimed, window, k) ==> row[j].ord() < row[k].ord() || (row[j].ord()
            == row[k].ord() && j <= k)
}

/// Whether a hit with deviations `row` finds no note that it may claim.
pub open spec fn no_naive_candidate(row: Seq<Binary32>, claimed: Seq<bool>, window: Binary32) -> bool {
    forall|k: int| !#[trigger] naive_candidate(row, claimed, window, k)
}

/// Whether `a` is the assignment of the naive scoring system: each hit, in
/// turn, claims its pick among the notes that no earlier hit has claimed,
/// and claims nothing where it has no candidate.
pub open spec fn is_naive_assignment(
    table: Seq<Vec<Binary32>>,
    num_notes: nat,
    window: Binary32,
    a: LaneAssignment,
) -> bool {
    &&& a.wf(table.len(), num_notes)
    &&& forall|i: int|
        0 <= i < table.len() ==> match #[trigger] a.note_of_hit@[i] {
            Some(j) => is_naive_pick(
                table[i]@,
                claimed_before(a.hit_of_note@, i),
                window,
                j as int,
            ),
            None => no_naive_candidate(table[i]@, claimed_before(a.hit_of_note@, i), window),
        }
}

proof fn lemma_naive_identity_upto(
    table: Seq<Vec<Binary32>>,
    window: Binary32,
    a: LaneAssignment,
    upto: int,
)
    requires
        is_table_of_identical_times(table),
        is_window(window),
        is_naive_assignment(table, table.len(), window, a),
        0 <= upto <= table.len(),
    ensures
        forall|h: int| 0 <= h < upto ==> #[trigger] a.note_of_hit@[h] == Some(h as usize),
    decreases upto,
{
    if upto > 0 {
        lemma_naive_identity_upto(table, window, a, upto - 1);
        let h = upto - 1;
        let claimed = claimed_before(a.hit_of_note@, h);
        assert forall|j: int| 0 <= j < table.len() implies claimed[j] == (j < h) by {
            if j < h {
                assert(a.note_of_hit@[j] == Some(j as usize));
            }
            match a.hit_of_note@[j] {
                Some(k) => {
                    if k < h {
                        assert(a.note_of_hit@[k as int] == Some(k));
                    }
                },
                None => {},
            }
        }
        assert(naive_candidate(table[h]@, claimed, window, h));
        match a.note_of_hit@[h] {
            Some(j) => {
                assert(is_naive_pick(table[h]@, claimed, window, j as int));
                assert(!table[h]@[j as int].sign());
            },
            None => {
                assert(no_naive_candidate(table[h]@, claimed, window));
            },
        }
    }
}

/// When the hit times of a lane are its note times, the naive scoring system
/// assigns every hit to the note of its own position: every note is claimed
/// with a deviation of zero, no note is missed and no hit is left over.
pub proof fn lemma_naive_on_identical_times(
    table: Seq<Vec<Binary32>>,
    window: Binary32,
    a: LaneAssignment,
)
    requires
        is_table_of_identical_times(table),
        is_window(window),
        is_naive_assignment(table, table.len(), window, a),
    ensures
        is_identity_assignment(a, table.len()),
        count_none(a.hit_of_note@) == 0,
        count_none(a.note_of_hit@) == 0,
        claimed_deviations(table, a.note_of_hit@, table.len() as int).len() == table.len(),
        forall|i: int|
            0 <= i < table.len() ==> (#[trigger] claimed_deviations(
                table,
                a.note_of_hit@,
                table.len() as int,
            )[i]).bits == 0,
{
    lemma_naive_identity_upto(table, window, a, table.len() as int);
    assert forall|i: int| 0 <= i < table.len() implies #[trigger] a.hit_of_note@[i] == Some(
        i as usize,
    ) by {
        assert(a.note_of_hit@[i] == Some(i as usize));
    }
    lemma_count_none_of_all_assigned(a.hit_of_note@);
    lemma_count_none_of_all_assigned(a.note_of_hit@);
    lemma_claimed_deviations_of_identity(table, a, table.len() as int);
}

proof fn lemma_naive_same_upto(
    table: Seq<Vec<Binary32>>,
    num_notes: nat,
    window: Binary32,
    a: LaneAssignment,
    b: LaneAssignment,
    upto: int,
)
    requires
        is_naive_assignment(table, num_notes, window, a),
        is_naive_assignment(table, num_notes, window, b),
        0 <= upto <= table.len(),
    ensures
        forall|h: int| 0 <= h < upto ==> #[trigger] a.note_of_hit@[h] == b.note_of_hit@[h],
    decreases upto,
{
    if upto > 0 {
        lemma_naive_same_upto(table, num_notes, window, a, b, upto - 1);
        let h = upto - 1;
        let claimed_a = claimed_before(a.hit_of_note@, h);
        let claimed_b = claimed_before(b.hit_of_note@, h);
        assert forall|j: int| 0 <= j < num_notes implies claimed_a[j] == claimed_b[j] by {
            match a.hit_of_note@[j] {
                Some(k) => {
                    if k < h {
                        assert(a.note_of_hit@[k as int] == Some(j as usize));
                        assert(b.note_of_hit@[k as int] == Some(j as usize));
                    }
                },
                None => {},
            }
            match b.hit_of_note@[j] {
                Some(k) => {
                    if k < h {
                        assert(b.note_of_hit@[k as int] == Some(j as usize));
                        assert(a.note_of_hit@[k as int] == Some(j as usize));
                    }
                },
                None => {},
            }
        }
        assert(claimed_a =~= claimed_b);
        match a.note_of_hit@[h] {
            Some(ja) => {
                assert(naive_candidate(table[h]@, claimed_b, window, ja as int));
                match b.note_of_hit@[h] {
                    Some(jb) => {
                        assert(naive_candidate(table[h]@, claimed_a, window, jb as int));
                    },
                    None => {
                        assert(no_naive_candidate(table[h]@, claimed_b, window));
                    },
                }
            },
            None => {
                assert(no_naive_candidate(table[h]@, claimed_a, window));
                match b.note_of_hit@[h] {
                    Some(jb) => {
                        assert(naive_candidate(table[h]@, claimed_a, window, jb as int));
                    },
                    None => {},
                }
            },
        }
    }
}

/// The assignment of the naive scoring system is unique: two assignments
/// that both satisfy [`is_naive_assignment`] give the same hits the same
/// notes.
pub proof fn lemma_naive_assignment_is_unique(
    table: Seq<Vec<Binary32>>,
    num_notes: nat,
    window: Binary32,
    a: LaneAssignment,
    b: LaneAssignment,
)
    requires
        is_naive_assignment(table, num_notes, window, a),
        is_naive_assignment(table, num_notes, window, b),
    ensures
        a.note_of_hit@ == b.note_of_hit@,
        a.hit_of_note@ == b.hit_of_note@,
{
    lemma_naive_same_upto(table, num_notes, window, a, b, table.len() as int);
    assert(a.note_of_hit@ =~= b.note_of_hit@);
    assert forall|j: int| 0 <= j < num_notes implies a.hit_of_note@[j] == b.hit_of_note@[j] by {
        match a.hit_of_note@[j] {
            Some(i) => {
                assert(a.note_of_hit@[i as int] == Some(j as usize));
            },
            None => {
                match b.hit_of_note@[j] {
                    Some(i) => {
                        assert(b.note_of_hit@[i as int] == Some(j as usize));
                    },
                    None => {},
                }
            },
        }
    }
    assert(a.hit_of_note@ =~= b.hit_of_note@);
}

/// Replica of the straightforward scoring system of mania rhythm games. It
/// maps hits to notes linearly.
pub struct NaiveScorer;

impl NaiveScorer {
    /// The note that a hit claims, given its deviation from each note and the
    /// notes that are taken.
    pub fn pick(row: &Vec<Binary32>, hit_of_note: &Vec<Option<usize>>, window: Binary32) -> (r:
        Option<usize>)
        requires
            row@.len() == hit_of_note@.len(),
        ensures
            match r {
                Some(j) => is_naive_pick(row@, taken(hit_of_note@), window, j as int),
                None => no_naive_candidate(row@, taken(hit_of_note@), window),
            },
    {
        let ghost claimed = taken(hit_of_note@);
        let mut best: Option<usize> = None;
        let mut best_deviation = Binary32::infinity();
        let mut j: usize = 0;
        while j < row.len()
            invariant
                0 <= j <= row@.len(),
                row@.len() == hit_of_note@.len(),
                claimed == taken(hit_of_note@),
                best.is_none() ==> best_deviation == (Binary32 { bits: crate::binary32::INFINITY_BITS }),
                best.is_none() ==> forall|k: int|
                    0 <= k < j ==> !naive_candidate(row@, claimed, window, k),
                best.is_some() ==> {
                    let b = best.unwrap() as int;
                    &&& b < j
                    &&& naive_candidate(row@, claimed, window, b)
                    &&& best_deviation == row@[b]
                    &&& forall|k: int|
                        0 <= k < j && #[trigger] naive_candidate(row@, claimed, window, k)
                            ==> row@[b].ord() < row@[k].ord() || (row@[b].ord() == row@[k].ord()
                            && b <= k)
                },
            decreases row@.len() - j,
        {
            let deviation = row[j];
            if !deviation.gt(window) && hit_of_note[j].is_none() && deviation.lt(best_deviation) {
                best = Some(j);
                best_deviation = deviation;
            }
            j += 1;
        }
        best
    }

    /// Assigns the hits of a lane to its notes.
    ///
    /// `table` holds one row for each hit, in the order of the hits, and
    /// each row holds the hit's deviation from each of the `num_notes` notes.
    /// A hit may claim a note within the judge's bad window.
    pub fn assign(table: &Vec<Vec<Binary32>>, num_notes: usize, judge: &Judge) -> (r:
        LaneAssignment)
        requires
            is_deviation_table(table@, num_notes as nat),
        ensures
            is_naive_assignment(table@, num_notes as nat, judge.bad_window, r),
    {
        let window = judge.bad_window;
        let mut hit_of_note: Vec<Option<usize>> = Vec::new();
        let mut n: usize = 0;
        while n < num_notes
            invariant
                0 <= n <= num_notes,
                hit_of_note@.len() == n,
                forall|j: int| 0 <= j < n ==> hit_of_note@[j].is_none(),
            decreases num_notes - n,
        {
            hit_of_note.push(None);
            n += 1;
        }
        let mut note_of_hit: Vec<Option<usize>> = Vec::new();
        let mut i: usize = 0;
        while i < table.len()
            invariant
                0 <= i <= table@.len(),
                is_deviation_table(table@, num_notes as nat),
                note_of_hit@.len() == i,
                hit_of_note@.len() == num_notes,
                points_back(note_of_hit@, hit_of_note@),
                points_back(hit_of_note@, note_of_hit@),
                forall|h: int|
                    0 <= h < i ==> match #[trigger] note_of_hit@[h] {
                        Some(j) => is_naive_pick(
                            table@[h]@,
                            claimed_before(hit_of_note@, h),
                            window,
                            j as int,
                        ),
                        None => no_naive_candidate(
                            table@[h]@,
                            claimed_before(hit_of_note@, h),
                            window,
                        ),
                    },
            decreases table@.len() - i,
        {
            let ghost before = hit_of_note@;
            let choice = NaiveScorer::pick(&table[i], &hit_of_note, window);
            assert(taken(before) =~= claimed_before(before, i as int));
            match choice {
                Some(j) => {
                    hit_of_note.set(j, Some(i));
                },
                None => {},
            }
            note_of_hit.push(choice);
            proof {
                let after = hit_of_note@;
                assert forall|h: int| 0 <= h <= i implies claimed_before(after, h)
                    =~= claimed_before(before, h) by {
                    assert forall|j: int| 0 <= j < before.len() implies claimed_before(after, h)[j]
                        == claimed_before(before, h)[j] by {
                    }
                }
                assert forall|h: int| 0 <= h < i + 1 implies match #[trigger] note_of_hit@[h] {
                    Some(j) => is_naive_pick(
                        table@[h]@,
                        claimed_before(after, h),
                        window,
                        j as int,
                    ),
                    None => no_naive_candidate(table@[h]@, claimed_before(after, h), window),
                } by {
                    assert(claimed_before(after, h) == claimed_before(before, h));
                }
            }
            i += 1;
        }
        LaneAssignment { note_of_hit, hit_of_note }
    }
}

} // verus!
