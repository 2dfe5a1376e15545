//! File sizes in bytes, and the units in which they are written.

use vstd::prelude::*;
use crate::skillsets::reads;

verus! {

/// Represents a file size.
#[derive(Copy, Clone, Ord, PartialOrd, Eq, PartialEq, Hash, Debug, Default, Structural)]
pub struct FileSize {
    bytes: u64,
}

/// What is wrong with the text of a file size.
#[derive(Debug)]
pub enum FileSizeParseError {
    /// The text is empty.
    EmptyString,
    /// The first word is no number.
    InvalidNumber,
    /// No unit follows the number.
    NoEnding,
    /// The unit, here in lowercase, is none that is known.
    UnexpectedEnding(String),
}

/// The number of bytes that a unit in lowercase stands for: powers of 1000
/// for `kb`, `mb`, `gb` and `tb`, powers of 1024 for `kib`, `mib`, `gib` and
/// `tib`.
pub open spec fn unit_multiplier_spec(ending: Seq<char>) -> Option<u64> {
    if ending == "b"@ {
        Some(1u64)
    } else if ending == "kb"@ {
        Some(1_000u64)
    } else if ending == "kib"@ {
        Some(1_024u64)
    } else if ending == "mb"@ {
        Some(1_000_000u64)
    } else if ending == "mib"@ {
        Some(1_048_576u64)
    } else if ending == "gb"@ {
        Some(1_000_000_000u64)
    } else if ending == "gib"@ {
        Some(1_073_741_824u64)
    } else if ending == "tb"@ {
        Some(1_000_000_000_000u64)
    } else if ending == "tib"@ {
        Some(1_099_511_627_776u64)
    } else {
        None
    }
}

impl FileSize {
    pub closed spec fn view(self) -> u64 {
        self.bytes
    }

    /// Create a new file size from the given number of bytes.
    pub fn from_bytes(bytes: u64) -> (r: FileSize)
        ensures
            r@ == bytes,
    {
        FileSize { bytes }
    }

    /// Get the number of bytes.
    pub fn bytes(self) -> (r: u64)
        ensures
            r == self@,
    {
        self.bytes
    }

    /// Get the number of kilobytes, rounded down.
    pub fn kb(self) -> (r: u64)
        ensures
            r == self@ / 1_000,
    {
        self.bytes / 1_000
    }

    /// Get the number of megabytes, rounded down.
    pub fn mb(self) -> (r: u64)
        ensures
            r == self@ / 1_000_000,
    {
        self.bytes / 1_000_000
    }

    /// Get the number of gigabytes, rounded down.
    pub fn gb(self) -> (r: u64)
        ensures
            r == self@ / 1_000_000_000,
    {
        self.bytes / 1_000_000_000
    }

    /// Get the number of terabytes, rounded down.
    pub fn tb(self) -> (r: u64)
        ensures
            r == self@ / 1_000_000_000_000,
    {
        self.bytes / 1_000_000_000_000
    }

    /// The number of bytes of a unit, given in lowercase.
    pub fn unit_multiplier(ending: &str) -> (r: Option<u64>)
        ensures
            r == unit_multiplier_spec(ending@),
    {
        if reads(ending, "b") {
            Some(1)
        } else if reads(ending, "kb") {
            Some(1_000)
        } else if reads(ending, "kib") {
            Some(1_024)
        } else if reads(ending, "mb") {
            Some(1_000_000)
        } else if reads(ending, "mib") {
            Some(1_048_576)
        } else if reads(ending, "gb") {
            Some(1_000_000_000)
        } else if reads(ending, "gib") {
            Some(1_073_741_824)
        } else if reads(ending, "tb") {
            Some(1_000_000_000_000)
        } else if reads(ending, "tib") {
            Some(1_099_511_627_776)
        } else {
            None
        }
    }
}

} // verus!
