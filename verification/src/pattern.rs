//! Patterns in the notation of the Etterna community: `1234` for a roll,
//! `[12][34]` for a jumptrill, `0` or `[]` for a gap.

use vstd::prelude::*;
use vstd::string::StringSliceAdditionalSpecFns;
use vstd::utf8::encode_utf8_valid_utf8;
use vstd::utf8::is_char_boundary;
use vstd::utf8::is_char_boundary_start_end_of_seq;
use vstd::utf8::length_of_first_scalar;
use vstd::utf8::pop_first_scalar;
use vstd::utf8::valid_utf8;

verus! {

/// What a character of a pattern stands for.
#[derive(Debug, Copy, Clone, Eq, PartialEq, Hash, Structural)]
pub enum CharToLane {
    /// A note in the lane of this number, counted from 0.
    Lane(u32),
    /// Nothing: the character is skipped.
    Invalid,
    /// A row without notes.
    Space,
}

impl CharToLane {
    pub open spec fn as_some_spec(self) -> Option<u32> {
        match self {
            CharToLane::Lane(lane) => Some(lane),
            _ => None,
        }
    }

    /// The lane, where the character stands for a note.
    pub fn as_some(self) -> (r: Option<u32>)
        ensures
            r == self.as_some_spec(),
    {
        match self {
            CharToLane::Lane(lane) => Some(lane),
            _ => None,
        }
    }
}

/// What a byte of a pattern stands for: `0` is a gap, `1` to `9` are the
/// lanes 0 to 8, and `l`, `d`, `u`, `r`, in either case, are the lanes 0 to
/// 3.
pub open spec fn char_to_lane_spec(c: u8) -> CharToLane {
    if c == 0x30 {
        CharToLane::Space
    } else if 0x31 <= c <= 0x39 {
        CharToLane::Lane((c - 0x31) as u32)
    } else if c == 0x6C || c == 0x4C {
        CharToLane::Lane(0)
    } else if c == 0x64 || c == 0x44 {
        CharToLane::Lane(1)
    } else if c == 0x75 || c == 0x55 {
        CharToLane::Lane(2)
    } else if c == 0x72 || c == 0x52 {
        CharToLane::Lane(3)
    } else {
        CharToLane::Invalid
    }
}

/// Convert a character in a pattern to a lane number. Works with numbers as
/// well as LDUR.
pub fn char_to_lane(c: u8) -> (r: CharToLane)
    ensures
        r == char_to_lane_spec(c),
{
    let lower: u8 = if 0x41 <= c && c <= 0x5A {
        c + 0x20
    } else {
        c
    };
    if lower == 0x30 {
        CharToLane::Space
    } else if 0x31 <= lower && lower <= 0x39 {
        CharToLane::Lane((c - 0x31) as u32)
    } else if lower == 0x6C {
        CharToLane::Lane(0)
    } else if lower == 0x64 {
        CharToLane::Lane(1)
    } else if lower == 0x75 {
        CharToLane::Lane(2)
    } else if lower == 0x72 {
        CharToLane::Lane(3)
    } else {
        CharToLane::Invalid
    }
}

/// Returns the width in bytes of the first character in the string: the
/// first place after the start at which a character begins or the string
/// ends.
pub fn first_char_width(string: &str) -> (r: usize)
    requires
        string@.len() > 0,
    ensures
        1 <= r <= 4,
        r <= string.spec_bytes().len(),
        is_char_boundary(string.spec_bytes(), r as int),
        forall|k: int| 1 <= k < r ==> !is_char_boundary(string.spec_bytes(), k),
{
    let ghost bytes = string.spec_bytes();
    proof {
        encode_utf8_valid_utf8(string@);
        vstd::utf8::encode_utf8_first_scalar(string@);
        assert(bytes.len() > 0);
        assert(valid_utf8(bytes));
        is_char_boundary_start_end_of_seq(pop_first_scalar(bytes));
        assert(is_char_boundary(bytes, length_of_first_scalar(bytes)));
    }
    let mut i: usize = 1;
    while i < 4
        invariant
            1 <= i <= 4,
            bytes == string.spec_bytes(),
            i <= length_of_first_scalar(bytes) <= 4,
            length_of_first_scalar(bytes) <= bytes.len(),
            is_char_boundary(bytes, length_of_first_scalar(bytes)),
            forall|k: int| 1 <= k < i ==> !is_char_boundary(bytes, k),
        decreases 4 - i,
    {
        if string.is_char_boundary(i) {
            return i;
        }
        i += 1;
    }
    i
}

/// The lanes that the bytes of a bracket name, in their order.
pub open spec fn lanes_of(bytes: Seq<u8>) -> Seq<u32>
    decreases bytes.len(),
{
    if bytes.len() == 0 {
        Seq::empty()
    } else {
        match char_to_lane_spec(bytes.last()) {
            CharToLane::Lane(lane) => lanes_of(bytes.drop_last()).push(lane),
            _ => lanes_of(bytes.drop_last()),
        }
    }
}

/// The place of the first `]` from `pos` on, or the length of `bytes` where
/// there is none.
pub open spec fn closing_bracket(bytes: Seq<u8>, pos: int) -> int
    decreases bytes.len() - pos,
{
    if pos >= bytes.len() {
        bytes.len() as int
    } else if bytes[pos] == 0x5D {
        pos
    } else {
        closing_bracket(bytes, pos + 1)
    }
}

/// The rows that the bytes from `pos` on stand for. A `[` with a `]`
/// somewhere after it opens a row of the lanes up to that `]`. Any other
/// byte is a row of its lane, an empty row, or nothing.
pub open spec fn rows_from(bytes: Seq<u8>, pos: int) -> Seq<Seq<u32>>
    decreases bytes.len() - pos,
{
    if pos < 0 || pos >= bytes.len() {
        Seq::empty()
    } else if bytes[pos] == 0x5B && closing_bracket(bytes, pos) < bytes.len() && closing_bracket(
        bytes,
        pos,
    ) > pos {
        seq![lanes_of(bytes.subrange(pos + 1, closing_bracket(bytes, pos)))] + rows_from(
            bytes,
            closing_bracket(bytes, pos) + 1,
        )
    } else {
        match char_to_lane_spec(bytes[pos]) {
            CharToLane::Lane(lane) => seq![seq![lane]] + rows_from(bytes, pos + 1),
            CharToLane::Space => seq![Seq::<u32>::empty()] + rows_from(bytes, pos + 1),
            CharToLane::Invalid => rows_from(bytes, pos + 1),
        }
    }
}

/// A pattern: each row is a vector of lane numbers. A plain jumptrill is
/// `[[0, 1], [2, 3], [0, 1], [2, 3]]`.
#[derive(Debug)]
pub struct Pattern {
    pub rows: Vec<Vec<u32>>,
}

fn find_closing_bracket(bytes: &[u8], pos: usize) -> (r: usize)
    requires
        pos <= bytes@.len(),
    ensures
        r == closing_bracket(bytes@, pos as int),
        pos <= r <= bytes@.len(),
        pos < bytes@.len() && bytes@[pos as int] != 0x5D ==> pos < r,
{
    let mut i: usize = pos;
    while i < bytes.len()
        invariant
            pos <= i <= bytes@.len(),
            closing_bracket(bytes@, pos as int) == closing_bracket(bytes@, i as int),
        decreases bytes@.len() - i,
    {
        if bytes[i] == 0x5D {
            return i;
        }
        i += 1;
    }
    i
}

fn bracket_lanes(bytes: &[u8], start: usize, end: usize) -> (r: Vec<u32>)
    requires
        start <= end <= bytes@.len(),
    ensures
        r@ == lanes_of(bytes@.subrange(start as int, end as int)),
{
    let mut lanes: Vec<u32> = Vec::new();
    let mut i: usize = start;
    assert(bytes@.subrange(start as int, start as int) =~= Seq::<u8>::empty());
    while i < end
        invariant
            start <= i <= end <= bytes@.len(),
            lanes@ == lanes_of(bytes@.subrange(start as int, i as int)),
        decreases end - i,
    {
        assert(bytes@.subrange(start as int, i + 1).drop_last() =~= bytes@.subrange(
            start as int,
            i as int,
        ));
        match char_to_lane(bytes[i]) {
            CharToLane::Lane(lane) => {
                lanes.push(lane);
            },
            _ => {},
        }
        i += 1;
    }
    lanes
}

/// The larger of the rightmost lane so far, if there is one, and `lane`.
pub open spec fn further_right(so_far: Option<u32>, lane: u32) -> Option<u32> {
    match so_far {
        Some(best) => if lane > best {
            Some(lane)
        } else {
            Some(best)
        },
        None => Some(lane),
    }
}

/// The rightmost lane among `so_far` and the lanes of `row`.
pub open spec fn rightmost_with(row: Seq<u32>, so_far: Option<u32>) -> Option<u32>
    decreases row.len(),
{
    if row.len() == 0 {
        so_far
    } else {
        further_right(rightmost_with(row.drop_last(), so_far), row.last())
    }
}

/// The rightmost lane of a pattern: the largest lane of any of its rows,
/// and `None` where no row holds a lane.
pub open spec fn rightmost_lane(rows: Seq<Seq<u32>>) -> Option<u32>
    decreases rows.len(),
{
    if rows.len() == 0 {
        None
    } else {
        rightmost_with(rows.last(), rightmost_lane(rows.drop_last()))
    }
}

/// The rows of a pattern as sequences.
pub open spec fn rows_view(rows: Seq<Vec<u32>>) -> Seq<Seq<u32>> {
    Seq::new(rows.len(), |i: int| rows[i]@)
}

impl Pattern {
    /// The rows of the pattern.
    pub open spec fn view(self) -> Seq<Seq<u32>> {
        rows_view(self.rows@)
    }

    /// Guesses the keymode (4k, 5k, 6k, ...): one more than the rightmost
    /// lane, and at least 4, for there is no such thing as 3k.
    ///
    /// Returns `None` if the pattern has no note.
    pub fn keymode(&self) -> (r: Option<u32>)
        requires
            rightmost_lane(self@) != Some(u32::MAX),
        ensures
            r == match rightmost_lane(self@) {
                Some(lane) => if lane + 1 < 4 {
                    Some(4u32)
                } else {
                    Some((lane + 1) as u32)
                },
                None => None,
            },
    {
        let mut rightmost: Option<u32> = None;
        let mut i: usize = 0;
        while i < self.rows.len()
            invariant
                0 <= i <= self.rows@.len(),
                rightmost == rightmost_lane(self@.take(i as int)),
            decreases self.rows@.len() - i,
        {
            let row = &self.rows[i];
            let ghost before = rightmost;
            let mut j: usize = 0;
            while j < row.len()
                invariant
                    0 <= j <= row@.len(),
                    rightmost == rightmost_with(row@.take(j as int), before),
                decreases row@.len() - j,
            {
                assert(row@.take(j + 1).drop_last() =~= row@.take(j as int));
                let lane = row[j];
                rightmost = match rightmost {
                    Some(best) => if lane > best {
                        Some(lane)
                    } else {
                        Some(best)
                    },
                    None => Some(lane),
                };
                j += 1;
            }
            proof {
                assert(row@.take(row@.len() as int) =~= row@);
                assert(self@.take(i + 1).drop_last() =~= self@.take(i as int));
                assert(self@.take(i + 1).last() == row@);
            }
            i += 1;
        }
        assert(self@.take(self@.len() as int) =~= self@);
        match rightmost {
            Some(lane) => {
                let keymode = lane + 1;
                if keymode < 4 {
                    Some(4)
                } else {
                    Some(keymode)
                }
            },
            None => None,
        }
    }

    /// Parse a pattern. The syntax has no mines, holds, rolls or lifts. The
    /// parser is lenient: whatever stands for nothing is skipped, and so is
    /// a bracket that is never closed.
    ///
    /// A character of several bytes stands for nothing and holds no
    /// bracket in any of its bytes, so the text is read byte by byte.
    pub fn parse_taps(string: &str) -> (r: Pattern)
        ensures
            r@ == rows_from(string.spec_bytes(), 0),
    {
        let bytes = string.as_bytes();
        let mut rows: Vec<Vec<u32>> = Vec::new();
        let mut pos: usize = 0;
        assert(rows_view(rows@) =~= Seq::<Seq<u32>>::empty());
        while pos < bytes.len()
            invariant
                0 <= pos <= bytes@.len(),
                bytes@ == string.spec_bytes(),
                rows_view(rows@) + rows_from(bytes@, pos as int) == rows_from(bytes@, 0),
            decreases bytes@.len() - pos,
        {
            let ghost before = rows_view(rows@);
            let closing = if bytes[pos] == 0x5B {
                find_closing_bracket(bytes, pos)
            } else {
                bytes.len()
            };
            if closing < bytes.len() {
                let lanes = bracket_lanes(bytes, pos + 1, closing);
                rows.push(lanes);
                assert(rows_view(rows@) =~= before.push(lanes@));
                assert(before.push(lanes@) + rows_from(bytes@, closing + 1) =~= before + (
                seq![lanes@] + rows_from(bytes@, closing + 1)));
                pos = closing + 1;
            } else {
                match char_to_lane(bytes[pos]) {
                    CharToLane::Lane(lane) => {
                        let row: Vec<u32> = vec![lane];
                        assert(row@ =~= seq![lane]);
                        rows.push(row);
                        assert(rows_view(rows@) =~= before.push(seq![lane]));
                        assert(before.push(seq![lane]) + rows_from(bytes@, pos + 1) =~= before + (
                        seq![seq![lane]] + rows_from(bytes@, pos + 1)));
                    },
                    CharToLane::Space => {
                        let row: Vec<u32> = Vec::new();
                        assert(row@ =~= Seq::<u32>::empty());
                        rows.push(row);
                        assert(rows_view(rows@) =~= before.push(Seq::<u32>::empty()));
                        assert(before.push(Seq::<u32>::empty()) + rows_from(bytes@, pos + 1)
                            =~= before + (seq![Seq::<u32>::empty()] + rows_from(bytes@, pos + 1)));
                    },
                    CharToLane::Invalid => {},
                }
                pos += 1;
            }
        }
        assert(rows_view(rows@) + Seq::<Seq<u32>>::empty() =~= rows_view(rows@));
        Pattern { rows }
    }
}

} // verus!
