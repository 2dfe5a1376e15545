//! Searching and splitting texts of bytes.

use vstd::prelude::*;

verus! {

/// A stretch of bytes of a text: from byte `start` up to, and without, byte
/// `end`.
#[derive(Copy, Clone, Debug, PartialEq, Eq, Structural)]
pub struct ByteRange {
    pub start: usize,
    pub end: usize,
}

/// Whether `at` is the place of the first `byte` in `bytes` from `start` up
/// to `end`, or `end` where there is none.
pub open spec fn is_first_at(bytes: Seq<u8>, start: int, end: int, byte: u8, at: int) -> bool {
    &&& start <= at <= end
    &&& forall|i: int| start <= i < at ==> #[trigger] bytes[i] != byte
    &&& at < end ==> bytes[at] == byte
}

/// The place of the first `byte` in `bytes` from `start` up to `end`, or
/// `end` where there is none.
pub open spec fn first_at(bytes: Seq<u8>, start: int, end: int, byte: u8) -> int {
    choose|at: int| is_first_at(bytes, start, end, byte, at)
}

/// Finds the first `byte` in `bytes` from `start` up to `end`; returns `end`
/// where there is none.
pub fn find_byte(bytes: &[u8], start: usize, end: usize, byte: u8) -> (r: usize)
    requires
        start <= end <= bytes@.len(),
    ensures
        is_first_at(bytes@, start as int, end as int, byte, r as int),
        r == first_at(bytes@, start as int, end as int, byte),
{
    let found = find_first(bytes, start, end, byte);
    proof {
        lemma_first_at_unique(
            bytes@,
            start as int,
            end as int,
            byte,
            found as int,
            first_at(bytes@, start as int, end as int, byte),
        );
    }
    found
}

fn find_first(bytes: &[u8], start: usize, end: usize, byte: u8) -> (r: usize)
    requires
        start <= end <= bytes@.len(),
    ensures
        is_first_at(bytes@, start as int, end as int, byte, r as int),
{
    let mut i: usize = start;
    while i < end
        invariant
            start <= i <= end <= bytes@.len(),
            forall|k: int| start <= k < i ==> #[trigger] bytes@[k] != byte,
        decreases end - i,
    {
        if bytes[i] == byte {
            return i;
        }
        i += 1;
    }
    end
}

/// The first `byte` of a stretch of bytes has one place.
pub proof fn lemma_first_at_unique(bytes: Seq<u8>, start: int, end: int, byte: u8, a: int, b: int)
    requires
        is_first_at(bytes, start, end, byte, a),
        is_first_at(bytes, start, end, byte, b),
    ensures
        a == b,
{
    if a < b {
        assert(bytes[a] != byte);
    } else if b < a {
        assert(bytes[b] != byte);
    }
}

/// Whether `lines` are the pieces into which the byte `separator` splits
/// `bytes`: stretches without a separator that follow one another from the
/// first byte to the last, with one separator between two of them.
pub open spec fn are_pieces_of(bytes: Seq<u8>, separator: u8, lines: Seq<(usize, usize)>) -> bool {
    &&& lines.len() > 0
    &&& lines[0].0 == 0
    &&& lines.last().1 == bytes.len()
    &&& forall|k: int|
        0 <= k < lines.len() ==> is_first_at(
            bytes,
            (#[trigger] lines[k]).0 as int,
            bytes.len() as int,
            separator,
            lines[k].1 as int,
        )
    &&& forall|k: int| 0 <= k < lines.len() - 1 ==> (#[trigger] lines[k]).1 + 1 == lines[k + 1].0
}

/// Splits a text at each `separator`. A text of `n` separators has `n + 1`
/// pieces, of which any may be empty.
pub fn split_bytes(bytes: &[u8], separator: u8) -> (r: Vec<(usize, usize)>)
    ensures
        are_pieces_of(bytes@, separator, r@),
{
    let mut lines: Vec<(usize, usize)> = Vec::new();
    let mut start: usize = 0;
    loop
        invariant_except_break
            start <= bytes@.len(),
            lines@.len() == 0 ==> start == 0,
            lines@.len() > 0 ==> lines@.last().1 + 1 == start,
        invariant
            lines@.len() > 0 ==> lines@[0].0 == 0,
            forall|k: int|
                0 <= k < lines@.len() ==> is_first_at(
                    bytes@,
                    (#[trigger] lines@[k]).0 as int,
                    bytes@.len() as int,
                    separator,
                    lines@[k].1 as int,
                ),
            forall|k: int| 0 <= k < lines@.len() - 1 ==> (#[trigger] lines@[k]).1 + 1 == lines@[k + 1].0,
        ensures
            are_pieces_of(bytes@, separator, lines@),
        decreases bytes@.len() - start,
    {
        let end = find_byte(bytes, start, bytes.len(), separator);
        lines.push((start, end));
        if end >= bytes.len() {
            break ;
        }
        start = end + 1;
    }
    lines
}

} // verus!
