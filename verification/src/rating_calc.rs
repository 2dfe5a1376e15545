//! The rating search: the schedule by which a set of skill ratings is
//! aggregated into one rating.
//!
//! The aggregate of a set of ratings is the lowest rating that is "okay" for
//! the set, on a grid of hundredths. Whether a candidate is okay is a
//! floating-point computation that the caller makes; this module decides
//! which candidate is tested next and when the search ends.
//!
//! The search starts at rating 0 with a resolution of 10.24. In each of 11
//! rounds it climbs by the resolution for as long as the rating one step up
//! is not okay, and then halves the resolution. At the end it adds twice the
//! last resolution: 0.01, one step of the last round.

use vstd::prelude::*;
use crate::binary32::Binary32;

verus! {

/// Number of rounds of the search.
pub const NUM_ROUNDS: u32 = 11;

/// The resolution of a round, counted in steps of the last round: 1024 in
/// round 0, halved from round to round, down to 1 in round 10.
pub open spec fn resolution(round: int) -> int {
    if round <= 0 {
        1024
    } else if round == 1 {
        512
    } else if round == 2 {
        256
    } else if round == 3 {
        128
    } else if round == 4 {
        64
    } else if round == 5 {
        32
    } else if round == 6 {
        16
    } else if round == 7 {
        8
    } else if round == 8 {
        4
    } else if round == 9 {
        2
    } else {
        1
    }
}

/// What the caller does to its rating and resolution after an answer.
#[derive(Copy, Clone, Debug, PartialEq, Eq, Structural)]
pub enum SearchStep {
    /// The candidate was not okay: add the resolution to the rating.
    Climb,
    /// The candidate was okay: halve the resolution.
    Refine,
    /// The candidate of the last round was okay: halve the resolution, add
    /// twice the resolution to the rating, and stop.
    Finish,
}

/// The state of a rating search. The rating itself is kept by the caller;
/// the search knows the round, and where on the grid the rating stands.
pub struct RatingSearch {
    round: u32,
    position: Ghost<int>,
}

impl RatingSearch {
    /// The round of the search, from 0; `NUM_ROUNDS` when it has ended.
    pub closed spec fn round(self) -> int {
        self.round as int
    }

    /// Where the caller's rating stands, in steps of the last round.
    pub closed spec fn position(self) -> int {
        self.position@
    }

    pub open spec fn finished(self) -> bool {
        self.round() >= NUM_ROUNDS
    }

    /// The grid point that the caller is to test next: one resolution above
    /// the position.
    pub open spec fn candidate(self) -> int {
        self.position() + resolution(self.round())
    }

    #[verifier::type_invariant]
    spec fn inv(self) -> bool {
        self.round <= NUM_ROUNDS
    }

    /// How the caller moves on after an answer for the candidate.
    pub open spec fn step_for(self, okay: bool) -> SearchStep {
        if self.finished() {
            SearchStep::Finish
        } else if !okay {
            SearchStep::Climb
        } else if self.round() < NUM_ROUNDS - 1 {
            SearchStep::Refine
        } else {
            SearchStep::Finish
        }
    }

    /// The round in which the search stands after an answer for the
    /// candidate.
    pub open spec fn round_after(self, okay: bool) -> int {
        if !self.finished() && okay {
            self.round() + 1
        } else {
            self.round()
        }
    }

    /// The position at which the search stands after an answer for the
    /// candidate.
    pub open spec fn position_after(self, okay: bool) -> int {
        if !self.finished() && !okay {
            self.candidate()
        } else {
            self.position()
        }
    }

    /// A search at its start: round 0, rating 0.
    pub fn new() -> (r: RatingSearch)
        ensures
            r.round() == 0,
            r.position() == 0,
    {
        RatingSearch { round: 0, position: Ghost(0) }
    }

    pub fn is_finished(&self) -> (r: bool)
        ensures
            r == self.finished(),
    {
        self.round >= NUM_ROUNDS
    }

    /// The number of the current round.
    pub fn current_round(&self) -> (r: u32)
        ensures
            r == self.round(),
            r <= NUM_ROUNDS,
    {
        proof {
            use_type_invariant(self);
        }
        self.round
    }

    /// Takes the answer for the current candidate and says how the caller
    /// moves on. A search that has ended stays as it is and answers
    /// `Finish`.
    pub fn observe(&mut self, okay: bool) -> (r: SearchStep)
        ensures
            r == old(self).step_for(okay),
            final(self).round() == old(self).round_after(okay),
            final(self).position() == old(self).position_after(okay),
    {
        proof {
            use_type_invariant(&*self);
        }
        if self.round >= NUM_ROUNDS {
            SearchStep::Finish
        } else if !okay {
            let ghost next = self.position@ + resolution(self.round as int);
            self.position = Ghost(next);
            SearchStep::Climb
        } else {
            self.round = self.round + 1;
            if self.round == NUM_ROUNDS {
                SearchStep::Finish
            } else {
                SearchStep::Refine
            }
        }
    }
}

/// Whether `okay` never turns false again once it is true, and is true from
/// `bound` on.
pub open spec fn is_threshold(okay: spec_fn(int) -> bool, bound: int) -> bool {
    &&& forall|k: int| k >= bound ==> #[trigger] okay(k)
    &&& forall|k: int| #[trigger] okay(k) ==> okay(k + 1)
}

/// The grid point at which a search ends that stands in `round` at
/// `position` and whose answers are those of `okay`. The result of the whole
/// search is `search_from(okay, bound, 0, 0)`, in hundredths.
pub open spec fn search_from(okay: spec_fn(int) -> bool, bound: int, round: int, position: int) -> int
    decreases NUM_ROUNDS - round, bound - position,
{
    if round >= NUM_ROUNDS {
        position + 1
    } else if position + resolution(round) < bound && !okay(position + resolution(round)) {
        search_from(okay, bound, round, position + resolution(round))
    } else {
        search_from(okay, bound, round + 1, position)
    }
}

/// One answer moves a search as `search_from` says: the search that follows
/// an answer for the candidate ends where the search before it ends.
pub proof fn lemma_observe_follows_search(
    okay: spec_fn(int) -> bool,
    bound: int,
    before: RatingSearch,
    after: RatingSearch,
)
    requires
        is_threshold(okay, bound),
        !before.finished(),
        before.round() >= 0,
        after.round() == before.round_after(okay(before.candidate())),
        after.position() == before.position_after(okay(before.candidate())),
    ensures
        search_from(okay, bound, after.round(), after.position()) == search_from(
            okay,
            bound,
            before.round(),
            before.position(),
        ),
{
}

proof fn lemma_search_from(okay: spec_fn(int) -> bool, bound: int, round: int, position: int)
    requires
        is_threshold(okay, bound),
        0 <= round < NUM_ROUNDS,
        position >= 0,
        position == 0 || !okay(position),
    ensures
        ({
            let r = search_from(okay, bound, round, position);
            &&& r >= 1
            &&& okay(r)
            &&& r == 1 || !okay(r - 1)
        }),
    decreases NUM_ROUNDS - round, bound - position,
{
    let step = resolution(round);
    if position + step < bound && !okay(position + step) {
        lemma_search_from(okay, bound, round, position + step);
    } else if round + 1 < NUM_ROUNDS {
        lemma_search_from(okay, bound, round + 1, position);
    } else {
        assert(step == 1);
        assert(search_from(okay, bound, round + 1, position) == position + 1);
    }
}

proof fn lemma_not_okay_below(okay: spec_fn(int) -> bool, bound: int, low: int, high: int)
    requires
        is_threshold(okay, bound),
        !okay(high),
        low <= high,
    ensures
        !okay(low),
    decreases high - low,
{
    if low < high {
        lemma_not_okay_below(okay, bound, low + 1, high);
    }
}

/// The search finds the lowest okay rating on the grid of hundredths: where
/// okay-ness is a threshold, the search ends at the least grid point from 1
/// on that is okay.
pub proof fn lemma_search_finds_least_okay(okay: spec_fn(int) -> bool, bound: int)
    requires
        is_threshold(okay, bound),
    ensures
        ({
            let r = search_from(okay, bound, 0, 0);
            &&& r >= 1
            &&& okay(r)
            &&& forall|k: int| 1 <= k < r ==> !#[trigger] okay(k)
        }),
{
    lemma_search_from(okay, bound, 0, 0);
    let r = search_from(okay, bound, 0, 0);
    assert forall|k: int| 1 <= k < r implies !#[trigger] okay(k) by {
        lemma_not_okay_below(okay, bound, k, r - 1);
    }
}

/// The four aggregations that use the rating search.
#[derive(Copy, Clone, Debug, PartialEq, Eq, Structural)]
pub enum RatingFormula {
    /// A score's overall difficulty from its seven skillsets.
    ScoreOverall,
    /// A player's rating in one skillset from the ratings of the scores.
    PlayerSkillset,
    /// `PlayerSkillset` as it was before version 0.70.
    PlayerSkillsetPre070,
    /// A player's overall rating from the seven skillset ratings.
    PlayerOverall,
}

impl RatingFormula {
    /// The factor by which the found rating is multiplied at the end:
    /// 1.11, 1.05, 1.04 and 1.125.
    pub fn final_multiplier(self) -> (r: Binary32)
        ensures
            r.bits == match self {
                RatingFormula::ScoreOverall => 0x3F8E_147Bu32,
                RatingFormula::PlayerSkillset => 0x3F86_6666u32,
                RatingFormula::PlayerSkillsetPre070 => 0x3F85_1EB8u32,
                RatingFormula::PlayerOverall => 0x3F90_0000u32,
            },
    {
        match self {
            RatingFormula::ScoreOverall => Binary32 { bits: 0x3F8E_147B },
            RatingFormula::PlayerSkillset => Binary32 { bits: 0x3F86_6666 },
            RatingFormula::PlayerSkillsetPre070 => Binary32 { bits: 0x3F85_1EB8 },
            RatingFormula::PlayerOverall => Binary32 { bits: 0x3F90_0000 },
        }
    }

    /// The factor by which a rating's distance from the candidate is scaled
    /// in the okay test: 0.25 for a score's overall, 0.1 otherwise.
    pub fn delta_multiplier(self) -> (r: Binary32)
        ensures
            r.bits == match self {
                RatingFormula::ScoreOverall => 0x3E80_0000u32,
                _ => 0x3DCC_CCCDu32,
            },
    {
        match self {
            RatingFormula::ScoreOverall => Binary32 { bits: 0x3E80_0000 },
            _ => Binary32 { bits: 0x3DCC_CCCD },
        }
    }

    /// The rating at which every search starts: zero.
    pub fn initial_rating() -> (r: Binary32)
        ensures
            r.bits == 0,
    {
        Binary32 { bits: 0 }
    }

    /// The resolution at which every search starts: 10.24.
    pub fn initial_resolution() -> (r: Binary32)
        ensures
            r.bits == 0x4123_D70A,
    {
        Binary32 { bits: 0x4123_D70A }
    }
}

} // verus!
