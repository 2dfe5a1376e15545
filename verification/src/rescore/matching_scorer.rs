//! The matching scoring system: hits and notes are paired from the closest
//! pair outwards, and a hit that is left without a note is a stray tap.

use vstd::prelude::*;
use crate::binary32::Binary32;
use crate::binary32::INFINITY_BITS;
use crate::judge::is_window;
use crate::judge::Judge;
use crate::rescore::claimable;
use crate::rescore::claimed_deviations;
use crate::rescore::count_none;
use crate::rescore::is_deviation_table;
use crate::rescore::is_identity_assignment;
use crate::rescore::is_table_of_identical_times;
use crate::rescore::LaneAssignment;
use crate::rescore::lemma_claimed_deviations_of_identity;
use crate::rescore::lemma_count_none_of_all_assigned;
use crate::rescore::pair_before;
use crate::rescore::points_back;

verus! {

/// Whether hit `i` and note `j` are both unassigned and may be paired.
pub open spec fn free_pair(
    table: Seq<Vec<Binary32>>,
    window: Binary32,
    note_of_hit: Seq<Option<usize>>,
    hit_of_note: Seq<Option<usize>>,
    i: int,
    j: int,
) -> bool {
    &&& 0 <= i < note_of_hit.len()
    &&& 0 <= j < hit_of_note.len()
    &&& note_of_hit[i].is_none()
    &&& hit_of_note[j].is_none()
    &&& claimable(table[i]@[j], window)
}

/// Whether the pair of hit `i` and note `j` has lost against a pair that
/// comes before it: hit `i` is assigned to a note, or note `j` to a hit,
/// in a pair that is ordered before `(i, j)`.
pub open spec fn outranked(
    table: Seq<Vec<Binary32>>,
    note_of_hit: Seq<Option<usize>>,
    hit_of_note: Seq<Option<usize>>,
    i: int,
    j: int,
) -> bool {
    ||| match note_of_hit[i] {
        Some(j2) => pair_before(table, i, j2 as int, i, j),
        None => false,
    }
    ||| match hit_of_note[j] {
        Some(i2) => pair_before(table, i2 as int, j, i, j),
        None => false,
    }
}

/// Whether hit `i` and note `j` block the assignment: they may be paired,
/// they are not paired with each other, and neither is in a pair that comes
/// before `(i, j)`. Both would rather be paired with each other.
pub open spec fn blocks(
    table: Seq<Vec<Binary32>>,
    window: Binary32,
    note_of_hit: Seq<Option<usize>>,
    hit_of_note: Seq<Option<usize>>,
    i: int,
    j: int,
) -> bool {
    &&& 0 <= i < note_of_hit.len()
    &&& 0 <= j < hit_of_note.len()
    &&& claimable(table[i]@[j], window)
    &&& note_of_hit[i] != Some(j as usize)
    &&& !outranked(table, note_of_hit, hit_of_note, i, j)
}

/// Whether every assigned hit is within the window of its note.
pub open spec fn pairs_claimable(
    table: Seq<Vec<Binary32>>,
    window: Binary32,
    note_of_hit: Seq<Option<usize>>,
) -> bool {
    forall|i: int|
        0 <= i < note_of_hit.len() ==> match #[trigger] note_of_hit[i] {
            Some(j) => claimable(table[i]@[j as int], window),
            None => true,
        }
}

/// Whether `a` is the assignment of the matching scoring system: a one-to-one
/// pairing within the window that no hit and note block. Pairs are ordered
/// by deviation, then hit, then note, so there is exactly one such pairing:
/// the one that is built by pairing, again and again, the first pair among
/// the hits and notes that are left.
pub open spec fn is_matching_assignment(
    table: Seq<Vec<Binary32>>,
    num_notes: nat,
    window: Binary32,
    a: LaneAssignment,
) -> bool {
    &&& a.wf(table.len(), num_notes)
    &&& pairs_claimable(table, window, a.note_of_hit@)
    &&& forall|i: int, j: int| !#[trigger] blocks(table, window, a.note_of_hit@, a.hit_of_note@, i, j)
}

/// Assigning an unassigned entry lowers the number of unassigned entries
/// by one.
pub proof fn lemma_count_none_update(s: Seq<Option<usize>>, i: int, v: usize)
    requires
        0 <= i < s.len(),
        s[i].is_none(),
    ensures
        count_none(s.update(i, Some(v))) + 1 == count_none(s),
    decreases s.len(),
{
    let t = s.update(i, Some(v));
    if i == s.len() - 1 {
        assert(t.drop_last() =~= s.drop_last());
    } else {
        assert(t.drop_last() =~= s.drop_last().update(i, Some(v)));
        lemma_count_none_update(s.drop_last(), i, v);
    }
}

proof fn lemma_matching_identity_upto(
    table: Seq<Vec<Binary32>>,
    window: Binary32,
    a: LaneAssignment,
    upto: int,
)
    requires
        is_table_of_identical_times(table),
        is_window(window),
        is_matching_assignment(table, table.len(), window, a),
        0 <= upto <= table.len(),
    ensures
        forall|h: int| 0 <= h < upto ==> #[trigger] a.note_of_hit@[h] == Some(h as usize),
    decreases upto,
{
    if upto > 0 {
        lemma_matching_identity_upto(table, window, a, upto - 1);
        let h = upto - 1;
        if a.note_of_hit@[h] != Some(h as usize) {
            assert(!blocks(table, window, a.note_of_hit@, a.hit_of_note@, h, h));
            assert(table[h]@[h].bits == 0);
            assert(outranked(table, a.note_of_hit@, a.hit_of_note@, h, h));
            match a.note_of_hit@[h] {
                Some(j2) => {
                    assert(!table[h]@[j2 as int].sign());
                    if j2 < h {
                        assert(a.note_of_hit@[j2 as int] == Some(j2));
                    }
                },
                None => {},
            }
            match a.hit_of_note@[h] {
                Some(i2) => {
                    assert(!table[i2 as int]@[h].sign());
                    if i2 < h {
                        assert(a.note_of_hit@[i2 as int] == Some(i2));
                    }
                },
                None => {},
            }
            assert(false);
        }
    }
}

/// When the hit times of a lane are its note times, the matching scoring
/// system assigns every hit to the note of its own position: every note is
/// paired with a deviation of zero, no note is missed and no hit is a stray
/// tap.
pub proof fn lemma_matching_on_identical_times(
    table: Seq<Vec<Binary32>>,
    window: Binary32,
    a: LaneAssignment,
)
    requires
        is_table_of_identical_times(table),
        is_window(window),
        is_matching_assignment(table, table.len(), window, a),
    ensures
        is_identity_assignment(a, table.len()),
        count_none(a.hit_of_note@) == 0,
        count_none(a.note_of_hit@) == 0,
        claimed_deviations(table, a.note_of_hit@, table.len() as int).len() == table.len(),
        forall|i: int|
            0 <= i < table.len() ==> (#[trigger] claimed_deviations(
                table,
                a.note_of_hit@,
                table.len() as int,
            )[i]).bits == 0,
{
    lemma_matching_identity_upto(table, window, a, table.len() as int);
    assert forall|i: int| 0 <= i < table.len() implies #[trigger] a.hit_of_note@[i] == Some(
        i as usize,
    ) by {
        assert(a.note_of_hit@[i] == Some(i as usize));
    }
    lemma_count_none_of_all_assigned(a.hit_of_note@);
    lemma_count_none_of_all_assigned(a.note_of_hit@);
    lemma_claimed_deviations_of_identity(table, a, table.len() as int);
}

/// The pairing of the matching scoring system is unique: two assignments
/// that both satisfy [`is_matching_assignment`] pair the same hits with the
/// same notes.
pub proof fn lemma_matching_assignment_is_unique(
    table: Seq<Vec<Binary32>>,
    num_notes: nat,
    window: Binary32,
    a: LaneAssignment,
    b: LaneAssignment,
)
    requires
        is_matching_assignment(table, num_notes, window, a),
        is_matching_assignment(table, num_notes, window, b),
    ensures
        a.note_of_hit@ == b.note_of_hit@,
        a.hit_of_note@ == b.hit_of_note@,
{
    assert forall|i: int| 0 <= i < table.len() implies a.note_of_hit@[i] == b.note_of_hit@[i] by {
        match a.note_of_hit@[i] {
            Some(j) => {
                lemma_pair_in_both(table, num_notes, window, a, b, i, j as int);
            },
            None => {
                match b.note_of_hit@[i] {
                    Some(j) => {
                        lemma_pair_in_both(table, num_notes, window, b, a, i, j as int);
                    },
                    None => {},
                }
            },
        }
    }
    assert(a.note_of_hit@ =~= b.note_of_hit@);
    assert forall|j: int| 0 <= j < num_notes implies a.hit_of_note@[j] == b.hit_of_note@[j] by {
        match a.hit_of_note@[j] {
            Some(i) => {
                assert(a.note_of_hit@[i as int] == Some(j as usize));
            },
            None => {
                match b.hit_of_note@[j] {
                    Some(i) => {
                        assert(b.note_of_hit@[i as int] == Some(j as usize));
                    },
                    None => {},
                }
            },
        }
    }
    assert(a.hit_of_note@ =~= b.hit_of_note@);
}

/// A pair of one matching assignment is a pair of every other.
proof fn lemma_pair_in_both(
    table: Seq<Vec<Binary32>>,
    num_notes: nat,
    window: Binary32,
    a: LaneAssignment,
    b: LaneAssignment,
    i: int,
    j: int,
)
    requires
        is_matching_assignment(table, num_notes, window, a),
        is_matching_assignment(table, num_notes, window, b),
        0 <= i < table.len(),
        0 <= j < num_notes,
        a.note_of_hit@[i] == Some(j as usize),
    ensures
        b.note_of_hit@[i] == Some(j as usize),
    decreases table[i]@[j].ord() + 0x1_0000_0000, i, j,
{
    if b.note_of_hit@[i] != Some(j as usize) {
        assert(!blocks(table, window, b.note_of_hit@, b.hit_of_note@, i, j));
        assert(outranked(table, b.note_of_hit@, b.hit_of_note@, i, j));
        match b.note_of_hit@[i] {
            Some(j2) => {
                if pair_before(table, i, j2 as int, i, j) {
                    lemma_pair_in_both(table, num_notes, window, b, a, i, j2 as int);
                }
            },
            None => {},
        }
        match b.hit_of_note@[j] {
            Some(i2) => {
                if pair_before(table, i2 as int, j, i, j) {
                    assert(b.note_of_hit@[i2 as int] == Some(j as usize));
                    lemma_pair_in_both(table, num_notes, window, b, a, i2 as int, j);
                    assert(a.hit_of_note@[j] == Some(i2));
                }
            },
            None => {},
        }
        assert(false);
    }
}

/// A scoring system that pairs hits and notes one to one, closest pair
/// first, and that counts each hit without a note as a stray tap.
pub struct MatchingScorer;

impl MatchingScorer {
    /// Finds the first pair, in the order of pairs, among the hits and notes
    /// that are unassigned.
    pub fn closest_free_pair(
        table: &Vec<Vec<Binary32>>,
        note_of_hit: &Vec<Option<usize>>,
        hit_of_note: &Vec<Option<usize>>,
        window: Binary32,
    ) -> (r: Option<(usize, usize)>)
        requires
            table@.len() == note_of_hit@.len(),
            is_deviation_table(table@, hit_of_note@.len()),
        ensures
            match r {
                Some((i, j)) => {
                    &&& free_pair(table@, window, note_of_hit@, hit_of_note@, i as int, j as int)
                    &&& forall|i2: int, j2: int| #[trigger]
                        free_pair(table@, window, note_of_hit@, hit_of_note@, i2, j2) ==> (i2 == i
                            && j2 == j) || pair_before(table@, i as int, j as int, i2, j2)
                },
                None => forall|i2: int, j2: int|
                    !#[trigger] free_pair(table@, window, note_of_hit@, hit_of_note@, i2, j2),
            },
    {
        let num_notes = hit_of_note.len();
        let mut best: Option<(usize, usize)> = None;
        let mut best_deviation = Binary32::infinity();
        let mut i: usize = 0;
        while i < table.len()
            invariant
                0 <= i <= table@.len(),
                num_notes == hit_of_note@.len(),
                table@.len() == note_of_hit@.len(),
                is_deviation_table(table@, hit_of_note@.len()),
                best.is_none() ==> best_deviation == (Binary32 { bits: INFINITY_BITS }),
                best.is_none() ==> forall|i2: int, j2: int|
                    i2 < i ==> !#[trigger] free_pair(
                        table@,
                        window,
                        note_of_hit@,
                        hit_of_note@,
                        i2,
                        j2,
                    ),
                best.is_some() ==> {
                    let bi = best.unwrap().0 as int;
                    let bj = best.unwrap().1 as int;
                    &&& free_pair(table@, window, note_of_hit@, hit_of_note@, bi, bj)
                    &&& best_deviation == table@[bi]@[bj]
                    &&& bi < i
                    &&& forall|i2: int, j2: int|
                        i2 < i && #[trigger] free_pair(
                            table@,
                            window,
                            note_of_hit@,
                            hit_of_note@,
                            i2,
                            j2,
                        ) ==> (i2 == bi && j2 == bj) || pair_before(table@, bi, bj, i2, j2)
                },
            decreases table@.len() - i,
        {
            if note_of_hit[i].is_none() {
                let row = &table[i];
                let mut j: usize = 0;
                while j < num_notes
                    invariant
                        0 <= i < table@.len(),
                        0 <= j <= num_notes,
                        num_notes == hit_of_note@.len(),
                        table@.len() == note_of_hit@.len(),
                        is_deviation_table(table@, hit_of_note@.len()),
                        row == table@[i as int],
                        note_of_hit@[i as int].is_none(),
                        best.is_none() ==> best_deviation == (Binary32 { bits: INFINITY_BITS }),
                        best.is_none() ==> forall|i2: int, j2: int|
                            (i2 < i || (i2 == i && j2 < j)) ==> !#[trigger] free_pair(
                                table@,
                                window,
                                note_of_hit@,
                                hit_of_note@,
                                i2,
                                j2,
                            ),
                        best.is_some() ==> {
                            let bi = best.unwrap().0 as int;
                            let bj = best.unwrap().1 as int;
                            &&& free_pair(table@, window, note_of_hit@, hit_of_note@, bi, bj)
                            &&& best_deviation == table@[bi]@[bj]
                            &&& (bi < i || (bi == i && bj < j))
                            &&& forall|i2: int, j2: int|
                                (i2 < i || (i2 == i && j2 < j)) && #[trigger] free_pair(
                                    table@,
                                    window,
                                    note_of_hit@,
                                    hit_of_note@,
                                    i2,
                                    j2,
                                ) ==> (i2 == bi && j2 == bj) || pair_before(
                                    table@,
                                    bi,
                                    bj,
                                    i2,
                                    j2,
                                )
                        },
                    decreases num_notes - j,
                {
                    let deviation = row[j];
                    if hit_of_note[j].is_none() && !deviation.gt(window) && deviation.lt(
                        best_deviation,
                    ) {
                        best = Some((i, j));
                        best_deviation = deviation;
                    }
                    j += 1;
                }
            }
            i += 1;
        }
        best
    }

    /// Assigns the hits of a lane to its notes.
    ///
    /// `table` holds one row for each hit, in the order of the hits, and
    /// each row holds the hit's deviation from each of the `num_notes` notes.
    /// A hit may be paired with a note within the judge's bad window.
    pub fn assign(table: &Vec<Vec<Binary32>>, num_notes: usize, judge: &Judge) -> (r:
        LaneAssignment)
        requires
            is_deviation_table(table@, num_notes as nat),
        ensures
            is_matching_assignment(table@, num_notes as nat, judge.bad_window, r),
    {
        let window = judge.bad_window;
        let mut hit_of_note = unassigned(num_notes);
        let mut note_of_hit = unassigned(table.len());
        let mut done = false;
        while !done
            invariant
                is_deviation_table(table@, num_notes as nat),
                note_of_hit@.len() == table@.len(),
                hit_of_note@.len() == num_notes,
                points_back(note_of_hit@, hit_of_note@),
                points_back(hit_of_note@, note_of_hit@),
                pairs_claimable(table@, window, note_of_hit@),
                forall|i: int, j: int| #[trigger]
                    blocks(table@, window, note_of_hit@, hit_of_note@, i, j) ==> free_pair(
                        table@,
                        window,
                        note_of_hit@,
                        hit_of_note@,
                        i,
                        j,
                    ),
                done ==> forall|i: int, j: int|
                    !#[trigger] free_pair(table@, window, note_of_hit@, hit_of_note@, i, j),
            decreases
                    count_none(note_of_hit@) + if done {
                        0nat
                    } else {
                        1nat
                    },
        {
            match MatchingScorer::closest_free_pair(table, &note_of_hit, &hit_of_note, window) {
                Some((bi, bj)) => {
                    let ghost hits_before = note_of_hit@;
                    let ghost notes_before = hit_of_note@;
                    note_of_hit.set(bi, Some(bj));
                    hit_of_note.set(bj, Some(bi));
                    proof {
                        lemma_count_none_update(hits_before, bi as int, bj);
                        assert forall|i: int, j: int| #[trigger]
                            blocks(
                                table@,
                                window,
                                note_of_hit@,
                                hit_of_note@,
                                i,
                                j,
                            ) implies free_pair(
                            table@,
                            window,
                            note_of_hit@,
                            hit_of_note@,
                            i,
                            j,
                        ) by {
                            if !blocks(table@, window, hits_before, notes_before, i, j) {
                                assert(outranked(table@, hits_before, notes_before, i, j));
                            } else {
                                assert(free_pair(table@, window, hits_before, notes_before, i, j));
                            }
                        }
                    }
                },
                None => {
                    done = true;
                },
            }
        }
        LaneAssignment { note_of_hit, hit_of_note }
    }
}

/// A vector of `len` unassigned entries.
fn unassigned(len: usize) -> (r: Vec<Option<usize>>)
    ensures
        r@.len() == len,
        forall|i: int| 0 <= i < len ==> (#[trigger] r@[i]).is_none(),
{
    let mut out: Vec<Option<usize>> = Vec::new();
    let mut n: usize = 0;
    while n < len
        invariant
            0 <= n <= len,
            out@.len() == n,
            forall|i: int| 0 <= i < n ==> (#[trigger] out@[i]).is_none(),
        decreases len - n,
    {
        out.push(None);
        n += 1;
    }
    out
}

} // verus!
