//! Scoring systems: the assignment of a lane's hits to its notes.
//!
//! A lane is described by its deviation table: row `i` holds, for hit `i`
//! and each note of the lane in turn, the absolute difference of the two
//! times in seconds. A scoring system decides which hit claims which note;
//! the score of the lane is then the sum of the curve value of each claimed
//! deviation and of the miss weight for whatever was left over.

pub mod matching_scorer;
pub mod naive_scorer;

use vstd::prelude::*;
use crate::binary32::Binary32;
use crate::binary32::INFINITY_BITS;
use crate::judge::Judge;

verus! {

/// Result of evaluating a scoring system on one lane: the sum of the score
/// contributions, and the number of notes that received a judgement.
#[derive(Copy, Clone, Debug)]
pub struct ScoringResult {
    pub wifescore_sum: Binary32,
    pub num_judged_notes: u64,
}

/// Whether a hit may claim a note from which it deviates by `deviation`:
/// the deviation is less than infinity and does not exceed `window`.
pub open spec fn claimable(deviation: Binary32, window: Binary32) -> bool {
    deviation.lt_spec(Binary32 { bits: INFINITY_BITS }) && !deviation.gt_spec(window)
}

/// Whether every row of `table` has one entry for each of `num_notes` notes.
pub open spec fn is_deviation_table(table: Seq<Vec<Binary32>>, num_notes: nat) -> bool {
    forall|i: int| 0 <= i < table.len() ==> (#[trigger] table[i])@.len() == num_notes
}

/// Whether the pair of hit `i1` and note `j1` comes strictly before the pair
/// of hit `i2` and note `j2`: pairs are ordered by their deviation, then by
/// the hit, then by the note.
pub open spec fn pair_before(table: Seq<Vec<Binary32>>, i1: int, j1: int, i2: int, j2: int) -> bool {
    let a = table[i1]@[j1].ord();
    let b = table[i2]@[j2].ord();
    a < b || (a == b && (i1 < i2 || (i1 == i2 && j1 < j2)))
}

/// Number of entries of `s` that are `None`.
pub open spec fn count_none(s: Seq<Option<usize>>) -> nat
    decreases s.len(),
{
    if s.len() == 0 {
        0
    } else {
        count_none(s.drop_last()) + if s.last().is_none() {
            1nat
        } else {
            0nat
        }
    }
}

/// The deviations of the first `upto` hits that claimed a note, in the order
/// of the hits.
pub open spec fn claimed_deviations(
    table: Seq<Vec<Binary32>>,
    note_of_hit: Seq<Option<usize>>,
    upto: int,
) -> Seq<Binary32>
    decreases upto,
{
    if upto <= 0 {
        Seq::empty()
    } else {
        let rest = claimed_deviations(table, note_of_hit, upto - 1);
        match note_of_hit[upto - 1] {
            Some(j) => rest.push(table[upto - 1]@[j as int]),
            None => rest,
        }
    }
}

/// Whether each entry `Some(j)` of `from`, at an index `i`, is answered by
/// the entry `Some(i)` of `to` at index `j`.
pub open spec fn points_back(from: Seq<Option<usize>>, to: Seq<Option<usize>>) -> bool {
    forall|i: int|
        0 <= i < from.len() ==> match #[trigger] from[i] {
            Some(j) => j < to.len() && to[j as int] == Some(i as usize),
            None => true,
        }
}

/// Whether `table` can be the deviation table of a lane whose hit times are
/// its note times: it is square, its entries are absolute values, and each
/// hit deviates from the note of its own position by zero.
pub open spec fn is_table_of_identical_times(table: Seq<Vec<Binary32>>) -> bool {
    &&& is_deviation_table(table, table.len())
    &&& forall|i: int| 0 <= i < table.len() ==> (#[trigger] table[i])@[i].bits == 0
    &&& forall|i: int, j: int|
        0 <= i < table.len() && 0 <= j < table.len() ==> !(#[trigger] table[i]@[j]).sign()
}

/// Whether `a` assigns every hit to the note of its own position.
pub open spec fn is_identity_assignment(a: LaneAssignment, len: nat) -> bool {
    &&& a.note_of_hit@.len() == len <= usize::MAX
    &&& a.hit_of_note@.len() == len
    &&& forall|i: int| 0 <= i < len ==> #[trigger] a.note_of_hit@[i] == Some(i as usize)
    &&& forall|i: int| 0 <= i < len ==> #[trigger] a.hit_of_note@[i] == Some(i as usize)
}

/// A sequence without an unassigned entry counts none.
pub proof fn lemma_count_none_of_all_assigned(s: Seq<Option<usize>>)
    requires
        forall|i: int| 0 <= i < s.len() ==> (#[trigger] s[i]).is_some(),
    ensures
        count_none(s) == 0,
    decreases s.len(),
{
    if s.len() > 0 {
        lemma_count_none_of_all_assigned(s.drop_last());
    }
}

/// Under the assignment of every hit to the note of its own position, the
/// claimed deviations are the diagonal of the table.
pub proof fn lemma_claimed_deviations_of_identity(
    table: Seq<Vec<Binary32>>,
    a: LaneAssignment,
    upto: int,
)
    requires
        is_identity_assignment(a, table.len()),
        0 <= upto <= table.len(),
    ensures
        claimed_deviations(table, a.note_of_hit@, upto).len() == upto,
        forall|i: int|
            0 <= i < upto ==> #[trigger] claimed_deviations(table, a.note_of_hit@, upto)[i]
                == table[i]@[i],
    decreases upto,
{
    if upto > 0 {
        lemma_claimed_deviations_of_identity(table, a, upto - 1);
        assert(a.note_of_hit@[upto - 1] == Some((upto - 1) as usize));
    }
}

/// An assignment of the hits of a lane to its notes.
#[derive(Clone, Debug)]
pub struct LaneAssignment {
    /// For each hit, the note that it claimed, if any.
    pub note_of_hit: Vec<Option<usize>>,
    /// For each note, the hit that claimed it, if any.
    pub hit_of_note: Vec<Option<usize>>,
}

impl LaneAssignment {
    /// The invariant of an assignment over `num_hits` hits and `num_notes`
    /// notes: the two maps are inverse to each other. So no hit claims two
    /// notes, and no note is claimed by two hits.
    pub open spec fn wf(self, num_hits: nat, num_notes: nat) -> bool {
        &&& self.note_of_hit@.len() == num_hits <= usize::MAX
        &&& self.hit_of_note@.len() == num_notes <= usize::MAX
        &&& points_back(self.note_of_hit@, self.hit_of_note@)
        &&& points_back(self.hit_of_note@, self.note_of_hit@)
    }

    /// Number of notes that no hit claimed.
    pub fn num_misses(&self) -> (r: usize)
        ensures
            r == count_none(self.hit_of_note@),
    {
        count_unassigned(&self.hit_of_note)
    }

    /// Number of hits that claimed no note.
    pub fn num_stray_taps(&self) -> (r: usize)
        ensures
            r == count_none(self.note_of_hit@),
    {
        count_unassigned(&self.note_of_hit)
    }

    /// The deviations of the hits that claimed a note, in the order of the
    /// hits.
    pub fn claimed_deviations(&self, table: &Vec<Vec<Binary32>>) -> (r: Vec<Binary32>)
        requires
            is_deviation_table(table@, self.hit_of_note@.len()),
            self.wf(table@.len(), self.hit_of_note@.len()),
        ensures
            r@ == claimed_deviations(table@, self.note_of_hit@, table@.len() as int),
    {
        let mut out: Vec<Binary32> = Vec::new();
        let mut i: usize = 0;
        while i < table.len()
            invariant
                0 <= i <= table@.len(),
                is_deviation_table(table@, self.hit_of_note@.len()),
                self.wf(table@.len(), self.hit_of_note@.len()),
                out@ == claimed_deviations(table@, self.note_of_hit@, i as int),
            decreases table@.len() - i,
        {
            match self.note_of_hit[i] {
                Some(j) => {
                    out.push(table[i][j]);
                },
                None => {},
            }
            i += 1;
        }
        out
    }
}

fn count_unassigned(s: &Vec<Option<usize>>) -> (r: usize)
    ensures
        r == count_none(s@),
{
    let mut n: usize = 0;
    let mut i: usize = 0;
    while i < s.len()
        invariant
            0 <= i <= s@.len(),
            n == count_none(s@.take(i as int)),
            n <= i,
        decreases s@.len() - i,
    {
        assert(s@.take(i + 1).drop_last() == s@.take(i as int));
        if s[i].is_none() {
            n += 1;
        }
        i += 1;
    }
    assert(s@.take(s@.len() as int) == s@);
    n
}

/// The scoring systems.
#[derive(Copy, Clone, Debug, PartialEq, Eq, Structural)]
pub enum ScoringSystem {
    /// Every hit, in order, claims the closest free note.
    Naive,
    /// Hits and notes are paired closest pair first; a hit without a note
    /// is a stray tap and is judged like a miss.
    Matching,
}

impl ScoringSystem {
    /// Whether `a` is the assignment that this system makes on `table`.
    pub open spec fn assigns(
        self,
        table: Seq<Vec<Binary32>>,
        num_notes: nat,
        window: Binary32,
        a: LaneAssignment,
    ) -> bool {
        match self {
            ScoringSystem::Naive => naive_scorer::is_naive_assignment(table, num_notes, window, a),
            ScoringSystem::Matching => matching_scorer::is_matching_assignment(
                table,
                num_notes,
                window,
                a,
            ),
        }
    }

    /// The number of miss weights that an assignment costs: one for each
    /// note that no hit claimed and, in the matching system, one for each
    /// stray tap.
    pub open spec fn num_penalties_spec(self, a: LaneAssignment) -> nat {
        match self {
            ScoringSystem::Naive => count_none(a.hit_of_note@),
            ScoringSystem::Matching => count_none(a.hit_of_note@) + count_none(a.note_of_hit@),
        }
    }

    /// The number of judgements that an assignment gives: one for each note
    /// and, in the matching system, one for each stray tap.
    pub open spec fn num_judged_spec(self, a: LaneAssignment) -> nat {
        match self {
            ScoringSystem::Naive => a.hit_of_note@.len(),
            ScoringSystem::Matching => a.hit_of_note@.len() + count_none(a.note_of_hit@),
        }
    }

    /// Assigns the hits of a lane to its notes, given the deviation of each
    /// hit from each of the `num_notes` notes.
    pub fn assign(self, table: &Vec<Vec<Binary32>>, num_notes: usize, judge: &Judge) -> (r:
        LaneAssignment)
        requires
            is_deviation_table(table@, num_notes as nat),
        ensures
            self.assigns(table@, num_notes as nat, judge.bad_window, r),
    {
        match self {
            ScoringSystem::Naive => naive_scorer::NaiveScorer::assign(table, num_notes, judge),
            ScoringSystem::Matching => matching_scorer::MatchingScorer::assign(
                table,
                num_notes,
                judge,
            ),
        }
    }

    /// The number of miss weights that an assignment costs.
    pub fn num_penalties(self, a: &LaneAssignment) -> (r: u64)
        requires
            a.hit_of_note@.len() + a.note_of_hit@.len() <= u64::MAX,
        ensures
            r == self.num_penalties_spec(*a),
    {
        proof {
            lemma_count_none_bound(a.hit_of_note@);
            lemma_count_none_bound(a.note_of_hit@);
        }
        match self {
            ScoringSystem::Naive => a.num_misses() as u64,
            ScoringSystem::Matching => a.num_misses() as u64 + a.num_stray_taps() as u64,
        }
    }

    /// The number of judgements that an assignment gives.
    pub fn num_judged_notes(self, a: &LaneAssignment) -> (r: u64)
        requires
            a.hit_of_note@.len() + a.note_of_hit@.len() <= u64::MAX,
        ensures
            r == self.num_judged_spec(*a),
    {
        proof {
            lemma_count_none_bound(a.note_of_hit@);
        }
        match self {
            ScoringSystem::Naive => a.hit_of_note.len() as u64,
            ScoringSystem::Matching => a.hit_of_note.len() as u64 + a.num_stray_taps() as u64,
        }
    }
}

/// No more entries are unassigned than there are entries.
pub proof fn lemma_count_none_bound(s: Seq<Option<usize>>)
    ensures
        count_none(s) <= s.len(),
    decreases s.len(),
{
    if s.len() > 0 {
        lemma_count_none_bound(s.drop_last());
    }
}

/// The sum of the judged notes of the first `upto` lanes.
pub open spec fn judged_within(results: Seq<ScoringResult>, upto: int) -> int
    decreases upto,
{
    if upto <= 0 {
        0
    } else {
        judged_within(results, upto - 1) + results[upto - 1].num_judged_notes
    }
}

/// The number of notes that were judged over all lanes: what the sum of the
/// lanes' scores is divided by. `None` where the number does not fit 64
/// bits.
pub fn total_judged_notes(results: &Vec<ScoringResult>) -> (r: Option<u64>)
    ensures
        r.is_some() <==> judged_within(results@, results@.len() as int) <= u64::MAX,
        r.is_some() ==> r.unwrap() == judged_within(results@, results@.len() as int),
{
    let mut total: u64 = 0;
    let mut i: usize = 0;
    while i < results.len()
        invariant
            0 <= i <= results@.len(),
            total == judged_within(results@, i as int),
        decreases results@.len() - i,
    {
        match total.checked_add(results[i].num_judged_notes) {
            Some(sum) => {
                total = sum;
            },
            None => {
                proof {
                    lemma_judged_within_grows(results@, i + 1, results@.len() as int);
                }
                return None;
            },
        }
        i += 1;
    }
    Some(total)
}

/// The sum of judged notes does not shrink with more lanes.
pub proof fn lemma_judged_within_grows(results: Seq<ScoringResult>, fewer: int, more: int)
    requires
        fewer <= more,
    ensures
        judged_within(results, fewer) <= judged_within(results, more),
    decreases more - fewer,
{
    if fewer < more {
        lemma_judged_within_grows(results, fewer, more - 1);
    }
}

} // verus!
