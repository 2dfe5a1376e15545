//! Replay files: the lines of a replay, the notes that they record, and the
//! order of the notes in time.
//!
//! A replay is a text of lines. A line that starts with `H` records a
//! dropped hold. Any other line holds three tokens with a space between
//! them: the tick of a note, the deviation of the hit from it (`1.0` and
//! whatever follows stands for a miss), and the rest, whose first byte is
//! the digit of the column and whose third byte, if there is one, is the
//! digit of the note type. The number of a deviation token is read by the
//! caller.

use vstd::prelude::*;
use vstd::slice::slice_subrange;
use crate::binary32::Binary32;
use crate::structs::Hit;
use crate::util::are_pieces_of;
use crate::util::ByteRange;
use crate::util::find_byte;
use crate::util::first_at;
use crate::util::is_first_at;
use crate::util::split_bytes;

verus! {

/// A single note of a replay.
#[derive(Copy, Clone, Debug, PartialEq, Eq, Structural)]
pub struct ReplayV2Note {
    pub tick: u32,
    pub hit: Hit,
    pub column: u8,
}

/// Contents of a replay file: the tap notes and hold heads with their hits,
/// the number of mines that were hit, and the number of holds that were
/// dropped.
#[derive(Clone, Debug)]
pub struct ReplayV2Fast {
    pub notes: Vec<ReplayV2Note>,
    pub num_mine_hits: u32,
    pub num_hold_drops: u32,
}

/// What a line of a replay lacks. Lines are counted from 0.
#[derive(Copy, Clone, Debug, PartialEq, Eq, Structural)]
pub enum ReplayParseError {
    MissingTick { line_num: usize },
    MissingDeviation { line_num: usize },
    MissingLane { line_num: usize },
}

/// The deviation token of a line.
#[derive(Copy, Clone, Debug, PartialEq, Eq, Structural)]
pub enum DeviationToken {
    /// The token starts with `1.0`: the note was missed.
    Miss,
    /// The token is the text of a number, from byte `start` up to `end`.
    Number { start: usize, end: usize },
}

/// What a line of a replay holds.
#[derive(Copy, Clone, Debug, PartialEq, Eq, Structural)]
pub enum ReplayLine {
    /// An empty line, or one whose first token is no tick.
    Skipped,
    /// A dropped hold.
    HoldDrop,
    /// A line with a tick and nothing after it.
    NoDeviation,
    /// A tick, a deviation token and, if the line has a third token, the
    /// bytes of the rest of the line.
    Entry { tick: u32, deviation: DeviationToken, rest: Option<ByteRange> },
}

/// An error of the integer parser of the crate `btoi`.
#[verifier::external_type_specification]
#[verifier::external_body]
pub struct ExParseIntegerError(btoi::ParseIntegerError);

/// Whether `text` is a decimal numeral: one digit or more, and nothing else.
pub open spec fn is_decimal(text: Seq<u8>) -> bool {
    text.len() > 0 && forall|i: int| 0 <= i < text.len() ==> 0x30 <= #[trigger] text[i] <= 0x39
}

/// The number that a decimal numeral denotes.
pub open spec fn decimal_value(text: Seq<u8>) -> nat
    decreases text.len(),
{
    if text.len() == 0 {
        0
    } else {
        10 * decimal_value(text.drop_last()) + (text.last() - 0x30) as nat
    }
}

/// Reads an unsigned decimal numeral with `btoi::btou`. It succeeds exactly
/// on a non-empty text of digits whose number fits 32 bits, and then returns
/// that number.
#[verifier::external_body]
fn parse_tick(token: &[u8]) -> (r: Result<u32, btoi::ParseIntegerError>)
    ensures
        r.is_ok() == (is_decimal(token@) && decimal_value(token@) <= u32::MAX),
        r.is_ok() ==> r.unwrap() == decimal_value(token@),
{
    btoi::btou(token)
}

/// Whether the bytes from `start` up to `end` start with `1.0`.
pub open spec fn starts_with_one(bytes: Seq<u8>, start: int, end: int) -> bool {
    end - start >= 3 && bytes[start] == 0x31 && bytes[start + 1] == 0x2E && bytes[start + 2] == 0x30
}

/// What the line from byte `start` up to `end` holds.
pub open spec fn line_spec(bytes: Seq<u8>, start: int, end: int) -> ReplayLine {
    if start >= end {
        ReplayLine::Skipped
    } else if bytes[start] == 0x48 {
        ReplayLine::HoldDrop
    } else {
        let first = first_at(bytes, start, end, 0x20);
        let tick = bytes.subrange(start, first);
        if !(is_decimal(tick) && decimal_value(tick) <= u32::MAX) {
            ReplayLine::Skipped
        } else if first >= end {
            ReplayLine::NoDeviation
        } else {
            let second = first_at(bytes, first + 1, end, 0x20);
            let deviation = if starts_with_one(bytes, first + 1, second) {
                DeviationToken::Miss
            } else {
                DeviationToken::Number { start: (first + 1) as usize, end: second as usize }
            };
            let rest = if second >= end {
                None
            } else {
                Some(ByteRange { start: (second + 1) as usize, end: end as usize })
            };
            ReplayLine::Entry { tick: decimal_value(tick) as u32, deviation, rest }
        }
    }
}

/// Reads the line of a replay that runs from byte `start` up to `end`.
pub fn scan_line(bytes: &[u8], start: usize, end: usize) -> (r: ReplayLine)
    requires
        start <= end <= bytes@.len(),
    ensures
        r == line_spec(bytes@, start as int, end as int),
        match r {
            ReplayLine::Entry { tick, deviation, rest } => {
                &&& match deviation {
                    DeviationToken::Number { start: a, end: b } => start < a <= b <= end,
                    DeviationToken::Miss => true,
                }
                &&& match rest {
                    Some(range) => start < range.start <= range.end == end,
                    None => true,
                }
            },
            _ => true,
        },
{
    if start >= end {
        return ReplayLine::Skipped;
    }
    if bytes[start] == 0x48 {
        return ReplayLine::HoldDrop;
    }
    let first = find_byte(bytes, start, end, 0x20);
    let tick = match parse_tick(slice_subrange(bytes, start, first)) {
        Ok(tick) => tick,
        Err(_) => {
            return ReplayLine::Skipped;
        },
    };
    if first >= end {
        return ReplayLine::NoDeviation;
    }
    let second = find_byte(bytes, first + 1, end, 0x20);
    let deviation = if second - (first + 1) >= 3 && bytes[first + 1] == 0x31 && bytes[first + 2]
        == 0x2E && bytes[first + 3] == 0x30 {
        DeviationToken::Miss
    } else {
        DeviationToken::Number { start: first + 1, end: second }
    };
    let rest = if second >= end {
        None
    } else {
        Some(ByteRange { start: second + 1, end })
    };
    ReplayLine::Entry { tick, deviation, rest }
}

/// Splits a text into its lines at each newline. A text of `n` newlines has
/// `n + 1` lines, of which any may be empty.
pub fn split_newlines(bytes: &[u8]) -> (r: Vec<(usize, usize)>)
    ensures
        are_pieces_of(bytes@, 0x0A, r@),
{
    split_bytes(bytes, 0x0A)
}

/// The hit that a deviation token records, given the number that the caller
/// read from it: `None` where the token is a number that could not be read.
pub open spec fn hit_of(deviation: DeviationToken, number: Option<Binary32>) -> Option<Hit> {
    match deviation {
        DeviationToken::Miss => Some(Hit::Miss),
        DeviationToken::Number { .. } => match number {
            Some(value) => Some(Hit::Hit { deviation: value }),
            None => None,
        },
    }
}

/// The column that the rest of a line names: its first byte less the digit
/// zero, in 8 bits.
pub open spec fn column_of(bytes: Seq<u8>, rest: ByteRange) -> u8 {
    if bytes[rest.start as int] >= 0x30 {
        (bytes[rest.start as int] - 0x30) as u8
    } else {
        (bytes[rest.start as int] + 0xD0) as u8
    }
}

/// The note type that the rest of a line names: its third byte less the
/// digit zero, in 8 bits, and 1 (a tap) where it has fewer than three bytes.
pub open spec fn note_type_of(bytes: Seq<u8>, rest: ByteRange) -> u8 {
    if rest.end - rest.start < 3 {
        1
    } else if bytes[rest.start + 2] >= 0x30 {
        (bytes[rest.start + 2] - 0x30) as u8
    } else {
        (bytes[rest.start + 2] + 0xD0) as u8
    }
}

/// A replay while it is read.
pub struct ReplayTally {
    pub notes: Seq<ReplayV2Note>,
    pub num_mine_hits: nat,
    pub num_hold_drops: nat,
}

/// The replay after one more line, or what the line lacks. A line whose
/// number could not be read counts for nothing. Of the note types, 1 and 2
/// (taps and hold heads) add a note and 4 (a mine, which is recorded only if
/// it was hit) adds a mine hit.
pub open spec fn tally_line(
    bytes: Seq<u8>,
    so_far: ReplayTally,
    line: ReplayLine,
    number: Option<Binary32>,
    line_num: usize,
) -> Result<ReplayTally, ReplayParseError> {
    match line {
        ReplayLine::Skipped => Ok(so_far),
        ReplayLine::HoldDrop => Ok(
            ReplayTally { num_hold_drops: so_far.num_hold_drops + 1, ..so_far },
        ),
        ReplayLine::NoDeviation => Err(ReplayParseError::MissingDeviation { line_num }),
        ReplayLine::Entry { tick, deviation, rest } => match hit_of(deviation, number) {
            None => Ok(so_far),
            Some(hit) => match rest {
                None => Err(ReplayParseError::MissingLane { line_num }),
                Some(rest) => if rest.start >= rest.end {
                    Err(ReplayParseError::MissingLane { line_num })
                } else {
                    let note_type = note_type_of(bytes, rest);
                    if note_type == 1 || note_type == 2 {
                        Ok(
                            ReplayTally {
                                notes: so_far.notes.push(
                                    ReplayV2Note { tick, hit, column: column_of(bytes, rest) },
                                ),
                                ..so_far
                            },
                        )
                    } else if note_type == 4 {
                        Ok(ReplayTally { num_mine_hits: so_far.num_mine_hits + 1, ..so_far })
                    } else {
                        Ok(so_far)
                    }
                },
            },
        },
    }
}

/// The replay after the first `upto` lines, or what the first faulty line
/// among them lacks.
pub open spec fn tally_upto(
    bytes: Seq<u8>,
    lines: Seq<ReplayLine>,
    numbers: Seq<Option<Binary32>>,
    upto: int,
) -> Result<ReplayTally, ReplayParseError>
    decreases upto,
{
    if upto <= 0 {
        Ok(ReplayTally { notes: Seq::empty(), num_mine_hits: 0, num_hold_drops: 0 })
    } else {
        match tally_upto(bytes, lines, numbers, upto - 1) {
            Ok(so_far) => tally_line(
                bytes,
                so_far,
                lines[upto - 1],
                numbers[upto - 1],
                (upto - 1) as usize,
            ),
            Err(e) => Err(e),
        }
    }
}

/// Whether the rest of each entry lies within `len` bytes.
pub open spec fn lines_fit(lines: Seq<ReplayLine>, len: int) -> bool {
    forall|k: int|
        0 <= k < lines.len() ==> match #[trigger] lines[k] {
            ReplayLine::Entry { tick, deviation, rest: Some(range) } => range.start <= range.end <= len,
            _ => true,
        }
}

/// Reads each line of a replay.
pub fn scan_replay(bytes: &[u8]) -> (r: Vec<ReplayLine>)
    ensures
        lines_fit(r@, bytes@.len() as int),
        exists|ranges: Seq<(usize, usize)>|
            {
                &&& #[trigger] are_pieces_of(bytes@, 0x0A, ranges)
                &&& r@.len() == ranges.len()
                &&& forall|k: int|
                    0 <= k < r@.len() ==> #[trigger] r@[k] == line_spec(
                        bytes@,
                        ranges[k].0 as int,
                        ranges[k].1 as int,
                    )
            },
{
    let ranges = split_newlines(bytes);
    let mut lines: Vec<ReplayLine> = Vec::new();
    let mut k: usize = 0;
    while k < ranges.len()
        invariant
            0 <= k <= ranges@.len(),
            are_pieces_of(bytes@, 0x0A, ranges@),
            lines@.len() == k,
            lines_fit(lines@, bytes@.len() as int),
            forall|m: int|
                0 <= m < k ==> #[trigger] lines@[m] == line_spec(
                    bytes@,
                    ranges@[m].0 as int,
                    ranges@[m].1 as int,
                ),
        decreases ranges@.len() - k,
    {
        let (start, end) = ranges[k];
        assert(is_first_at(bytes@, ranges@[k as int].0 as int, bytes@.len() as int, 0x0A, end as int));
        let line = scan_line(bytes, start, end);
        lines.push(line);
        k += 1;
    }
    lines
}

impl ReplayV2Fast {
    /// The replay that a tally describes.
    pub open spec fn holds(self, tally: ReplayTally) -> bool {
        &&& self.notes@ == tally.notes
        &&& self.num_mine_hits == tally.num_mine_hits
        &&& self.num_hold_drops == tally.num_hold_drops
    }

    /// Puts a replay together from its lines and from the numbers that the
    /// caller read from the deviation tokens: `numbers[k]` is the number of
    /// line `k`, and `None` where the line has no number or its text is no
    /// number. Fails at the first line that lacks a token.
    pub fn assemble(bytes: &[u8], lines: &Vec<ReplayLine>, numbers: &Vec<Option<Binary32>>) -> (r:
        Result<ReplayV2Fast, ReplayParseError>)
        requires
            lines@.len() == numbers@.len(),
            lines@.len() <= u32::MAX,
            lines_fit(lines@, bytes@.len() as int),
        ensures
            match tally_upto(bytes@, lines@, numbers@, lines@.len() as int) {
                Ok(tally) => r.is_ok() && r.unwrap().holds(tally),
                Err(e) => r == Err::<ReplayV2Fast, ReplayParseError>(e),
            },
    {
        let mut notes: Vec<ReplayV2Note> = Vec::new();
        let mut num_mine_hits: u32 = 0;
        let mut num_hold_drops: u32 = 0;
        let mut k: usize = 0;
        while k < lines.len()
            invariant
                0 <= k <= lines@.len(),
                lines@.len() == numbers@.len(),
                lines@.len() <= u32::MAX,
                lines_fit(lines@, bytes@.len() as int),
                num_mine_hits <= k,
                num_hold_drops <= k,
                tally_upto(bytes@, lines@, numbers@, k as int) == Ok::<
                    ReplayTally,
                    ReplayParseError,
                >(
                    ReplayTally {
                        notes: notes@,
                        num_mine_hits: num_mine_hits as nat,
                        num_hold_drops: num_hold_drops as nat,
                    },
                ),
            decreases lines@.len() - k,
        {
            match lines[k] {
                ReplayLine::Skipped => {},
                ReplayLine::HoldDrop => {
                    num_hold_drops += 1;
                },
                ReplayLine::NoDeviation => {
                    proof {
                        lemma_tally_error_stays(bytes@, lines@, numbers@, k + 1, lines@.len() as int);
                    }
                    return Err(ReplayParseError::MissingDeviation { line_num: k });
                },
                ReplayLine::Entry { tick, deviation, rest } => {
                    let hit = match deviation {
                        DeviationToken::Miss => Some(Hit::Miss),
                        DeviationToken::Number { .. } => match numbers[k] {
                            Some(value) => Some(Hit::Hit { deviation: value }),
                            None => None,
                        },
                    };
                    if let Some(hit) = hit {
                        let missing = match rest {
                            None => true,
                            Some(range) => range.start >= range.end,
                        };
                        if missing {
                            proof {
                                lemma_tally_error_stays(
                                    bytes@,
                                    lines@,
                                    numbers@,
                                    k + 1,
                                    lines@.len() as int,
                                );
                            }
                            return Err(ReplayParseError::MissingLane { line_num: k });
                        }
                        let range = rest.unwrap();
                        let a = range.start;
                        let b = range.end;
                        let column: u8 = digit_value(bytes[a]);
                        let note_type: u8 = if b - a >= 3 {
                            digit_value(bytes[a + 2])
                        } else {
                            1
                        };
                        if note_type == 1 || note_type == 2 {
                            notes.push(ReplayV2Note { tick, hit, column });
                        } else if note_type == 4 {
                            num_mine_hits += 1;
                        }
                    }
                },
            }
            k += 1;
        }
        Ok(ReplayV2Fast { notes, num_mine_hits, num_hold_drops })
    }

    /// The hits of the notes, in the order of the replay.
    pub fn hits(&self) -> (r: Vec<Hit>)
        ensures
            r@.len() == self.notes@.len(),
            forall|i: int| 0 <= i < r@.len() ==> #[trigger] r@[i] == self.notes@[i].hit,
    {
        let mut out: Vec<Hit> = Vec::new();
        let mut i: usize = 0;
        while i < self.notes.len()
            invariant
                0 <= i <= self.notes@.len(),
                out@.len() == i,
                forall|k: int| 0 <= k < i ==> #[trigger] out@[k] == self.notes@[k].hit,
            decreases self.notes@.len() - i,
        {
            out.push(self.notes[i].hit);
            i += 1;
        }
        out
    }
}

/// A permutation of the crate `permutation`.
#[verifier::external_type_specification]
#[verifier::external_body]
pub struct ExPermutation(permutation::Permutation);

/// The order that a permutation gives to a sequence: the element that it
/// puts at place `k` is the one that stood at place `order_of(p)[k]`.
pub uninterp spec fn order_of(p: permutation::Permutation) -> Seq<int>;

/// Whether `order` lists each of the places `0..len` once.
pub open spec fn is_rearrangement(order: Seq<int>, len: int) -> bool {
    &&& order.len() == len
    &&& forall|k: int| 0 <= k < len ==> 0 <= #[trigger] order[k] < len
    &&& forall|k: int, m: int| 0 <= k < m < len ==> #[trigger] order[k] != #[trigger] order[m]
}

/// Whether `order` sorts `keys` and keeps equal keys in the order in which
/// they stand.
pub open spec fn is_stable_sorting_order(keys: Seq<u32>, order: Seq<int>) -> bool {
    &&& is_rearrangement(order, keys.len() as int)
    &&& forall|k: int, m: int|
        0 <= k < m < keys.len() ==> keys[#[trigger] order[k]] < keys[#[trigger] order[m]] || (
        keys[order[k]] == keys[order[m]] && order[k] < order[m])
}

/// Computes with `permutation::sort` the permutation that sorts `keys`. It
/// sorts the places `0..len` by their keys with a stable sort.
#[verifier::external_body]
fn sorting_permutation(keys: &Vec<u32>) -> (r: permutation::Permutation)
    ensures
        is_stable_sorting_order(keys@, order_of(r)),
{
    permutation::sort(keys)
}

/// Applies a permutation to a sequence with `Permutation::apply_slice`:
/// the result holds at each place the element that the order of the
/// permutation names.
#[verifier::external_body]
fn permuted<T: Copy>(p: &permutation::Permutation, items: &Vec<T>) -> (r: Vec<T>)
    requires
        order_of(*p).len() == items@.len(),
    ensures
        r@.len() == items@.len(),
        forall|k: int| 0 <= k < r@.len() ==> #[trigger] r@[k] == items@[order_of(*p)[k]],
{
    p.apply_slice(items)
}

/// The ticks of a sequence of notes.
pub open spec fn ticks_of(notes: Seq<ReplayV2Note>) -> Seq<u32> {
    Seq::new(notes.len(), |i: int| notes[i].tick)
}

/// Whether `sorted` holds the notes of `notes` in the order of their ticks,
/// notes of one tick in the order in which they stand in `notes`.
pub open spec fn is_sorted_by_tick(notes: Seq<ReplayV2Note>, sorted: Seq<ReplayV2Note>) -> bool {
    exists|order: Seq<int>|
        {
            &&& #[trigger] is_stable_sorting_order(ticks_of(notes), order)
            &&& sorted.len() == notes.len()
            &&& forall|k: int| 0 <= k < sorted.len() ==> #[trigger] sorted[k] == notes[order[k]]
        }
}

/// The places of the notes of column `lane`, in ascending order.
pub open spec fn is_lane(notes: Seq<ReplayV2Note>, lane: u8, places: Seq<usize>) -> bool {
    &&& forall|k: int|
        0 <= k < places.len() ==> (#[trigger] places[k]) < notes.len() && notes[places[k] as int].column
            == lane
    &&& forall|k: int, m: int| 0 <= k < m < places.len() ==> #[trigger] places[k] < #[trigger] places[m]
    &&& forall|i: int|
        0 <= i < notes.len() && (#[trigger] notes[i]).column == lane ==> places.contains(i as usize)
}

/// The places of the notes of column `lane` among `notes`, in ascending
/// order.
pub fn lane_places(notes: &Vec<ReplayV2Note>, lane: u8) -> (r: Vec<usize>)
    ensures
        is_lane(notes@, lane, r@),
{
    let mut places: Vec<usize> = Vec::new();
    let mut i: usize = 0;
    while i < notes.len()
        invariant
            0 <= i <= notes@.len(),
            forall|k: int|
                0 <= k < places@.len() ==> (#[trigger] places@[k]) < i && notes@[places@[k] as int].column
                    == lane,
            forall|k: int, m: int|
                0 <= k < m < places@.len() ==> #[trigger] places@[k] < #[trigger] places@[m],
            forall|j: int|
                0 <= j < i && (#[trigger] notes@[j]).column == lane ==> places@.contains(j as usize),
        decreases notes@.len() - i,
    {
        if notes[i].column == lane {
            let ghost before = places@;
            places.push(i);
            proof {
                assert(places@[before.len() as int] == i);
                assert forall|j: int|
                    0 <= j < i + 1 && (#[trigger] notes@[j]).column == lane implies places@.contains(
                    j as usize,
                ) by {
                    if j < i {
                        let k = choose|k: int| 0 <= k < before.len() && before[k] == j as usize;
                        assert(places@[k] == j as usize);
                    }
                }
            }
        }
        i += 1;
    }
    places
}

impl ReplayV2Fast {
    /// The ticks of the notes, in the order of the replay.
    pub fn ticks(&self) -> (r: Vec<u32>)
        ensures
            r@ == ticks_of(self.notes@),
    {
        let mut out: Vec<u32> = Vec::new();
        let mut i: usize = 0;
        while i < self.notes.len()
            invariant
                0 <= i <= self.notes@.len(),
                out@.len() == i,
                forall|k: int| 0 <= k < i ==> #[trigger] out@[k] == self.notes@[k].tick,
            decreases self.notes@.len() - i,
        {
            out.push(self.notes[i].tick);
            i += 1;
        }
        assert(out@ =~= ticks_of(self.notes@));
        out
    }

    /// The notes in the order of their ticks, notes of one tick in the order
    /// of the replay.
    pub fn sorted_by_tick(&self) -> (r: Vec<ReplayV2Note>)
        ensures
            is_sorted_by_tick(self.notes@, r@),
            forall|k: int, m: int| 0 <= k <= m < r@.len() ==> r@[k].tick <= r@[m].tick,
    {
        let ticks = self.ticks();
        let permutation = sorting_permutation(&ticks);
        let sorted = permuted(&permutation, &self.notes);
        proof {
            let order = order_of(permutation);
            assert(is_stable_sorting_order(ticks_of(self.notes@), order));
        }
        sorted
    }
}

/// A byte less the digit zero, in 8 bits: the value of a digit.
fn digit_value(byte: u8) -> (r: u8)
    ensures
        r == if byte >= 0x30 {
            (byte - 0x30) as u8
        } else {
            (byte + 0xD0) as u8
        },
{
    if byte >= 0x30 {
        byte - 0x30
    } else {
        byte + 0xD0
    }
}

/// Once a line lacks a token, the lines after it change nothing.
pub proof fn lemma_tally_error_stays(
    bytes: Seq<u8>,
    lines: Seq<ReplayLine>,
    numbers: Seq<Option<Binary32>>,
    from: int,
    upto: int,
)
    requires
        0 <= from <= upto,
        tally_upto(bytes, lines, numbers, from).is_err(),
    ensures
        tally_upto(bytes, lines, numbers, upto) == tally_upto(bytes, lines, numbers, from),
    decreases upto - from,
{
    if from < upto {
        lemma_tally_error_stays(bytes, lines, numbers, from, upto - 1);
    }
}

} // verus!
