//! Timing of a chart: the tempo at its start and the beats at which the
//! tempo changes.
//!
//! A timing text lists pairs `beat=bpm` with commas between them. The
//! numbers of a pair are read by the caller, and so are the seconds of a
//! tick computed; this module finds the tokens, orders the changes, and
//! tells for each tick which tempo holds at it.

use std::cmp::Ordering;
use vstd::prelude::*;
use crate::binary64::Binary64;
use crate::savegame::is_rearrangement;
use crate::util::are_pieces_of;
use crate::util::ByteRange;
use crate::util::find_byte;
use crate::util::first_at;
use crate::util::split_bytes;

verus! {

/// A change of tempo: from `beat` on the tempo is `bpm`.
#[derive(Copy, Clone, Debug, PartialEq, Eq, Structural)]
pub struct BpmChange {
    pub beat: Binary64,
    pub bpm: Binary64,
}

/// The timing of a chart: the tempo at beat zero, and the changes of tempo
/// after it in the order of their beats.
#[derive(Debug)]
pub struct TimingInfo {
    first_bpm: Binary64,
    changes: Vec<BpmChange>,
}

/// What is wrong with a timing text.
#[derive(Copy, Clone, Debug, PartialEq, Eq, Structural)]
pub enum SmBpmStringParseError {
    /// A pair has no equals sign.
    MissingEquals,
    /// The beat of a pair is no number.
    InvalidBeatString,
    /// The tempo of a pair is no number.
    InvalidBpmString,
    /// The first change is not at beat zero.
    FirstBpmChangeNotZero { beat_instead: Binary64 },
    /// A beat or a tempo is a NaN.
    EncounteredNan,
}

/// The two tokens of a pair, without the whitespace around them.
#[derive(Copy, Clone, Debug, PartialEq, Eq, Structural)]
pub struct BpmTokens {
    pub beat: ByteRange,
    pub bpm: ByteRange,
}

/// Whether a byte is ASCII whitespace: a space, a tab, a line feed, a form
/// feed or a carriage return.
pub open spec fn is_whitespace(byte: u8) -> bool {
    byte == 0x20 || byte == 0x09 || byte == 0x0A || byte == 0x0C || byte == 0x0D
}

/// Whether `r` is the stretch from `start` up to `end` without the
/// whitespace at its two ends. A stretch of nothing but whitespace is
/// trimmed to the empty stretch at `end`.
pub open spec fn is_trim_of(bytes: Seq<u8>, start: int, end: int, r: ByteRange) -> bool {
    &&& start <= r.start <= r.end <= end
    &&& forall|i: int| start <= i < r.start ==> is_whitespace(#[trigger] bytes[i])
    &&& forall|i: int| r.end <= i < end ==> is_whitespace(#[trigger] bytes[i])
    &&& r.start < r.end ==> !is_whitespace(bytes[r.start as int]) && !is_whitespace(
        bytes[r.end - 1],
    )
    &&& r.start == r.end ==> r.start == end
}

/// Trims the whitespace off the two ends of a stretch of bytes.
pub fn trim_bstr(bytes: &[u8], start: usize, end: usize) -> (r: ByteRange)
    requires
        start <= end <= bytes@.len(),
    ensures
        is_trim_of(bytes@, start as int, end as int, r),
{
    let mut a: usize = start;
    while a < end && (bytes[a] == 0x20 || bytes[a] == 0x09 || bytes[a] == 0x0A || bytes[a] == 0x0C
        || bytes[a] == 0x0D)
        invariant
            start <= a <= end <= bytes@.len(),
            forall|i: int| start <= i < a ==> is_whitespace(#[trigger] bytes@[i]),
        decreases end - a,
    {
        a += 1;
    }
    if a == end {
        return ByteRange { start: end, end };
    }
    let mut b: usize = end;
    while b > a + 1 && (bytes[b - 1] == 0x20 || bytes[b - 1] == 0x09 || bytes[b - 1] == 0x0A
        || bytes[b - 1] == 0x0C || bytes[b - 1] == 0x0D)
        invariant
            start <= a < b <= end <= bytes@.len(),
            !is_whitespace(bytes@[a as int]),
            forall|i: int| b <= i < end ==> is_whitespace(#[trigger] bytes@[i]),
        decreases b,
    {
        b -= 1;
    }
    ByteRange { start: a, end: b }
}

/// Whether `tokens` are the tokens of the pair from `start` up to `end`:
/// none where the pair has no equals sign, and else what stands before and
/// after the first one, trimmed.
pub open spec fn are_tokens_of(bytes: Seq<u8>, start: int, end: int, tokens: Option<BpmTokens>) -> bool {
    let equals = first_at(bytes, start, end, 0x3D);
    match tokens {
        None => equals >= end,
        Some(t) => equals < end && is_trim_of(bytes, start, equals, t.beat) && is_trim_of(
            bytes,
            equals + 1,
            end,
            t.bpm,
        ),
    }
}

/// Finds the tokens of each pair of a timing text.
pub fn scan_bpm_pairs(bytes: &[u8]) -> (r: Vec<Option<BpmTokens>>)
    ensures
        r@.len() > 0,
        exists|pieces: Seq<(usize, usize)>|
            {
                &&& #[trigger] are_pieces_of(bytes@, 0x2C, pieces)
                &&& r@.len() == pieces.len()
                &&& forall|k: int|
                    0 <= k < r@.len() ==> are_tokens_of(
                        bytes@,
                        pieces[k].0 as int,
                        pieces[k].1 as int,
                        #[trigger] r@[k],
                    )
            },
{
    let pieces = split_bytes(bytes, 0x2C);
    let mut out: Vec<Option<BpmTokens>> = Vec::new();
    let mut k: usize = 0;
    while k < pieces.len()
        invariant
            0 <= k <= pieces@.len(),
            are_pieces_of(bytes@, 0x2C, pieces@),
            out@.len() == k,
            forall|m: int|
                0 <= m < k ==> are_tokens_of(
                    bytes@,
                    pieces@[m].0 as int,
                    pieces@[m].1 as int,
                    #[trigger] out@[m],
                ),
        decreases pieces@.len() - k,
    {
        let (start, end) = pieces[k];
        assert(crate::util::is_first_at(
            bytes@,
            pieces@[k as int].0 as int,
            bytes@.len() as int,
            0x2C,
            end as int,
        ));
        let equals = find_byte(bytes, start, end, 0x3D);
        if equals >= end {
            out.push(None);
        } else {
            let beat = trim_bstr(bytes, start, equals);
            let bpm = trim_bstr(bytes, equals + 1, end);
            out.push(Some(BpmTokens { beat, bpm }));
        }
        k += 1;
    }
    out
}

/// The changes that the first `upto` pairs give, or what is wrong with the
/// first faulty pair among them. `beats[k]` and `bpms[k]` are the numbers of
/// pair `k`, and `None` where its text is no number.
pub open spec fn changes_upto(
    tokens: Seq<Option<BpmTokens>>,
    beats: Seq<Option<Binary64>>,
    bpms: Seq<Option<Binary64>>,
    upto: int,
) -> Result<Seq<BpmChange>, SmBpmStringParseError>
    decreases upto,
{
    if upto <= 0 {
        Ok(Seq::empty())
    } else {
        match changes_upto(tokens, beats, bpms, upto - 1) {
            Err(e) => Err(e),
            Ok(so_far) => if tokens[upto - 1].is_none() {
                Err(SmBpmStringParseError::MissingEquals)
            } else if beats[upto - 1].is_none() {
                Err(SmBpmStringParseError::InvalidBeatString)
            } else if bpms[upto - 1].is_none() {
                Err(SmBpmStringParseError::InvalidBpmString)
            } else if beats[upto - 1].unwrap().nan() || bpms[upto - 1].unwrap().nan() {
                Err(SmBpmStringParseError::EncounteredNan)
            } else {
                Ok(so_far.push(BpmChange { beat: beats[upto - 1].unwrap(), bpm: bpms[upto - 1].unwrap() }))
            },
        }
    }
}

/// Whether `after` holds the changes of `before` in the order of their
/// beats, changes of one beat in the order in which they stand in `before`.
pub open spec fn is_sorted_by_beat(before: Seq<BpmChange>, after: Seq<BpmChange>) -> bool {
    exists|order: Seq<int>|
        {
            &&& #[trigger] is_rearrangement(order, before.len() as int)
            &&& after.len() == before.len()
            &&& forall|k: int| 0 <= k < after.len() ==> #[trigger] after[k] == before[order[k]]
            &&& forall|k: int, m: int|
                0 <= k < m < before.len() ==> before[#[trigger] order[k]].beat.ord()
                    < before[#[trigger] order[m]].beat.ord() || (before[order[k]].beat.ord()
                    == before[order[m]].beat.ord() && order[k] < order[m])
        }
}

/// Whether no beat and no tempo of `changes` is a NaN.
pub open spec fn are_numbers(changes: Seq<BpmChange>) -> bool {
    forall|k: int| 0 <= k < changes.len() ==> !(#[trigger] changes[k]).beat.nan() && !changes[k].bpm.nan()
}

/// The order of two changes: that of their beats.
fn beat_order(a: &BpmChange, b: &BpmChange) -> (r: Ordering)
    ensures
        r == if a.beat.lt_spec(b.beat) {
            Ordering::Less
        } else if b.beat.lt_spec(a.beat) {
            Ordering::Greater
        } else {
            Ordering::Equal
        },
{
    if a.beat.lt(b.beat) {
        Ordering::Less
    } else if b.beat.lt(a.beat) {
        Ordering::Greater
    } else {
        Ordering::Equal
    }
}

/// Sorts changes by their beats with `sort_by` of the standard library,
/// which is a stable sort.
#[verifier::external_body]
fn sort_by_beat(changes: &mut Vec<BpmChange>)
    requires
        are_numbers(old(changes)@),
    ensures
        is_sorted_by_beat(old(changes)@, final(changes)@),
{
    changes.sort_by(|a, b| beat_order(a, b));
}

/// Whether `segment` is the number of the tempo that holds at `beat`, for a
/// search that starts at the tempo `from`: the first change from `from` on
/// that lies after `beat`, and the number of changes where there is none.
/// Tempo 0 holds before the first change.
pub open spec fn is_segment_of(changes: Seq<BpmChange>, beat: Binary64, from: int, segment: int) -> bool {
    &&& from <= segment <= changes.len()
    &&& forall|k: int| from <= k < segment ==> !beat.lt_spec((#[trigger] changes[k]).beat)
    &&& segment < changes.len() ==> beat.lt_spec(changes[segment].beat)
}

/// Whether `r` is what sorted changes give: the timing whose first tempo is
/// that of the first change, with the changes after it, where the first
/// change is at beat zero; and else the error that names its beat.
pub open spec fn is_timing_of(
    sorted: Seq<BpmChange>,
    r: Result<TimingInfo, SmBpmStringParseError>,
) -> bool {
    &&& sorted.len() > 0
    &&& if sorted[0].beat.same_number_spec(Binary64 { bits: 0 }) {
        &&& r.is_ok()
        &&& r.unwrap().first_bpm_spec() == sorted[0].bpm
        &&& r.unwrap().changes_spec() == sorted.skip(1)
    } else {
        r == Err::<TimingInfo, SmBpmStringParseError>(
            SmBpmStringParseError::FirstBpmChangeNotZero { beat_instead: sorted[0].beat },
        )
    }
}

impl TimingInfo {
    /// The tempo at beat zero.
    pub closed spec fn first_bpm_spec(self) -> Binary64 {
        self.first_bpm
    }

    /// The changes of tempo after beat zero.
    pub closed spec fn changes_spec(self) -> Seq<BpmChange> {
        self.changes@
    }

    /// Puts a timing together from the tokens of its pairs and the numbers
    /// that the caller read from them. The changes are sorted by their
    /// beats; the first of them must be at beat zero, and gives the first
    /// tempo.
    pub fn assemble(
        tokens: &Vec<Option<BpmTokens>>,
        beats: &Vec<Option<Binary64>>,
        bpms: &Vec<Option<Binary64>>,
    ) -> (r: Result<TimingInfo, SmBpmStringParseError>)
        requires
            tokens@.len() > 0,
            tokens@.len() == beats@.len(),
            tokens@.len() == bpms@.len(),
        ensures
            match changes_upto(tokens@, beats@, bpms@, tokens@.len() as int) {
                Err(e) => r == Err::<TimingInfo, SmBpmStringParseError>(e),
                Ok(changes) => exists|sorted: Seq<BpmChange>|
                    (#[trigger] is_sorted_by_beat(changes, sorted)) && is_timing_of(sorted, r),
            },
    {
        let mut changes: Vec<BpmChange> = Vec::new();
        let mut k: usize = 0;
        while k < tokens.len()
            invariant
                0 <= k <= tokens@.len(),
                tokens@.len() == beats@.len(),
                tokens@.len() == bpms@.len(),
                changes_upto(tokens@, beats@, bpms@, k as int) == Ok::<
                    Seq<BpmChange>,
                    SmBpmStringParseError,
                >(changes@),
                changes@.len() == k,
                are_numbers(changes@),
            decreases tokens@.len() - k,
        {
            let fault = if tokens[k].is_none() {
                Some(SmBpmStringParseError::MissingEquals)
            } else if beats[k].is_none() {
                Some(SmBpmStringParseError::InvalidBeatString)
            } else if bpms[k].is_none() {
                Some(SmBpmStringParseError::InvalidBpmString)
            } else if beats[k].unwrap().is_nan() || bpms[k].unwrap().is_nan() {
                Some(SmBpmStringParseError::EncounteredNan)
            } else {
                None
            };
            match fault {
                Some(e) => {
                    proof {
                        lemma_changes_error_stays(tokens@, beats@, bpms@, k + 1, tokens@.len() as int);
                    }
                    return Err(e);
                },
                None => {
                    changes.push(BpmChange { beat: beats[k].unwrap(), bpm: bpms[k].unwrap() });
                },
            }
            k += 1;
        }
        let ghost collected = changes@;
        assert(changes_upto(tokens@, beats@, bpms@, tokens@.len() as int) == Ok::<
            Seq<BpmChange>,
            SmBpmStringParseError,
        >(collected));
        sort_by_beat(&mut changes);
        assert(is_sorted_by_beat(collected, changes@));
        let ghost sorted = changes@;
        let first = changes[0];
        if !first.beat.is_zero() {
            let r = Err(SmBpmStringParseError::FirstBpmChangeNotZero { beat_instead: first.beat });
            assert(is_sorted_by_beat(collected, sorted) && is_timing_of(sorted, r));
            assert(changes_upto(tokens@, beats@, bpms@, tokens@.len() as int) matches Ok(cs) && cs
                == collected);
            return r;
        }
        changes.remove(0);
        assert(changes@ =~= sorted.skip(1));
        let r = Ok(TimingInfo { first_bpm: first.bpm, changes });
        assert(is_sorted_by_beat(collected, sorted) && is_timing_of(sorted, r));
        assert(changes_upto(tokens@, beats@, bpms@, tokens@.len() as int) matches Ok(cs) && cs
            == collected);
        r
    }

    /// The tempo at beat zero.
    pub fn first_bpm(&self) -> (r: Binary64)
        ensures
            r == self.first_bpm_spec(),
    {
        self.first_bpm
    }

    /// The number of changes of tempo after beat zero.
    pub fn num_changes(&self) -> (r: usize)
        ensures
            r == self.changes_spec().len(),
    {
        self.changes.len()
    }

    /// The change of tempo of a number, counted from 0.
    pub fn change(&self, index: usize) -> (r: BpmChange)
        requires
            index < self.changes_spec().len(),
        ensures
            r == self.changes_spec()[index as int],
    {
        self.changes[index]
    }

    /// Tells for each tick, given the beat at which it lies, the number of
    /// the tempo that holds at it: 0 for the first tempo, `k + 1` for the
    /// tempo of change `k`. The search for the tempo of a tick starts at the
    /// tempo of the tick before it, so that the numbers never descend.
    pub fn segments(&self, tick_beats: &Vec<Binary64>) -> (r: Vec<usize>)
        ensures
            r@.len() == tick_beats@.len(),
            forall|i: int|
                0 <= i < r@.len() ==> is_segment_of(
                    self.changes_spec(),
                    tick_beats@[i],
                    if i == 0 {
                        0
                    } else {
                        r@[i - 1] as int
                    },
                    #[trigger] r@[i] as int,
                ),
    {
        let mut out: Vec<usize> = Vec::new();
        let mut segment: usize = 0;
        let mut i: usize = 0;
        while i < tick_beats.len()
            invariant
                0 <= i <= tick_beats@.len(),
                out@.len() == i,
                segment <= self.changes@.len(),
                i > 0 ==> segment == out@[i - 1],
                i == 0 ==> segment == 0,
                forall|j: int|
                    0 <= j < i ==> is_segment_of(
                        self.changes_spec(),
                        tick_beats@[j],
                        if j == 0 {
                            0
                        } else {
                            out@[j - 1] as int
                        },
                        #[trigger] out@[j] as int,
                    ),
            decreases tick_beats@.len() - i,
        {
            let beat = tick_beats[i];
            let ghost from = segment;
            while segment < self.changes.len() && !beat.lt(self.changes[segment].beat)
                invariant
                    from <= segment <= self.changes@.len(),
                    forall|k: int| from <= k < segment ==> !beat.lt_spec((#[trigger] self.changes_spec()[k]).beat),
                decreases self.changes@.len() - segment,
            {
                segment += 1;
            }
            out.push(segment);
            i += 1;
        }
        out
    }
}

/// Once a pair is faulty, the pairs after it change nothing.
pub proof fn lemma_changes_error_stays(
    tokens: Seq<Option<BpmTokens>>,
    beats: Seq<Option<Binary64>>,
    bpms: Seq<Option<Binary64>>,
    from: int,
    upto: int,
)
    requires
        0 <= from <= upto,
        changes_upto(tokens, beats, bpms, from).is_err(),
    ensures
        changes_upto(tokens, beats, bpms, upto) == changes_upto(tokens, beats, bpms, from),
    decreases upto - from,
{
    if from < upto {
        lemma_changes_error_stays(tokens, beats, bpms, from, upto - 1);
    }
}

} // verus!
