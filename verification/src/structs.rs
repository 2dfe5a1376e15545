//! Common value types: judgements, hits and chart metadata.

use vstd::prelude::*;
use crate::binary32::Binary32;
use crate::judge::Judge;
use crate::skillsets::Skillset8;
use vstd::std_specs::bits::u32_leading_zeros;
use vstd::string::StringSliceAdditionalSpecFns;
use vstd::utf8::encode_utf8;

verus! {

/// The judgement of a single tap, from best to worst.
#[derive(Copy, Clone, Debug, Hash, Eq, PartialEq, Structural)]
pub enum TapJudgement {
    Marvelous,
    Perfect,
    Great,
    Good,
    Bad,
    Miss,
}

impl TapJudgement {
    /// How bad a judgement is: 0 for marvelous up to 5 for miss.
    pub open spec fn severity(self) -> int {
        match self {
            TapJudgement::Marvelous => 0,
            TapJudgement::Perfect => 1,
            TapJudgement::Great => 2,
            TapJudgement::Good => 3,
            TapJudgement::Bad => 4,
            TapJudgement::Miss => 5,
        }
    }

    /// The colour in which the game shows a judgement, as red, green, blue.
    pub fn color(self) -> (r: (u8, u8, u8))
        ensures
            r == match self {
                TapJudgement::Marvelous => (0x99u8, 0xCCu8, 0xFFu8),
                TapJudgement::Perfect => (0xF2u8, 0xCBu8, 0x30u8),
                TapJudgement::Great => (0x14u8, 0xCCu8, 0x8Fu8),
                TapJudgement::Good => (0x1Au8, 0xB2u8, 0xFFu8),
                TapJudgement::Bad => (0xFFu8, 0x1Au8, 0xB3u8),
                TapJudgement::Miss => (0xCCu8, 0x29u8, 0x29u8),
            },
    {
        match self {
            TapJudgement::Marvelous => (0x99, 0xCC, 0xFF),
            TapJudgement::Perfect => (0xF2, 0xCB, 0x30),
            TapJudgement::Great => (0x14, 0xCC, 0x8F),
            TapJudgement::Good => (0x1A, 0xB2, 0xFF),
            TapJudgement::Bad => (0xFF, 0x1A, 0xB3),
            TapJudgement::Miss => (0xCC, 0x29, 0x29),
        }
    }
}

/// A player's hit of a single note. The deviation is in seconds and may be
/// negative; a missed note has none.
#[derive(Copy, Clone, Debug, PartialEq, Eq, Structural)]
pub enum Hit {
    Hit { deviation: Binary32 },
    Miss,
}

impl Hit {
    /// The judgement of a hit: that of its deviation, and miss for a note
    /// that was not hit.
    pub open spec fn classify_spec(self, judge: Judge) -> TapJudgement {
        match self {
            Hit::Hit { deviation } => judge.classify_spec(deviation),
            Hit::Miss => TapJudgement::Miss,
        }
    }

    pub fn deviation(&self) -> (r: Option<Binary32>)
        ensures
            r == match *self {
                Hit::Hit { deviation } => Some(deviation),
                Hit::Miss => None,
            },
    {
        match *self {
            Hit::Hit { deviation } => Some(deviation),
            Hit::Miss => None,
        }
    }

    pub fn classify(&self, judge: &Judge) -> (r: TapJudgement)
        ensures
            r == self.classify_spec(*judge),
    {
        match *self {
            Hit::Hit { deviation } => judge.classify(deviation),
            Hit::Miss => TapJudgement::Miss,
        }
    }

    /// Whether the note was hit strictly within `window` seconds of its time.
    pub fn is_within_window(&self, window: Binary32) -> (r: bool)
        requires
            window.ge_spec(Binary32 { bits: 0 }),
        ensures
            r == match *self {
                Hit::Hit { deviation } => deviation.abs_spec().lt_spec(window),
                Hit::Miss => false,
            },
    {
        match *self {
            Hit::Hit { deviation } => deviation.abs().lt(window),
            Hit::Miss => false,
        }
    }

    /// Whether this hit breaks a combo: whether its deviation exceeds the
    /// great window. A note that was not hit is the worst judgement and
    /// breaks the combo.
    pub fn is_cb(&self, judge: &Judge) -> (r: bool)
        ensures
            r == match *self {
                Hit::Hit { deviation } => deviation.abs_spec().gt_spec(judge.great_window),
                Hit::Miss => true,
            },
    {
        match *self {
            Hit::Hit { deviation } => judge.is_cb(deviation),
            Hit::Miss => true,
        }
    }

    pub fn is_marv(&self, judge: &Judge) -> (r: bool)
        ensures
            r == (self.classify_spec(*judge) == TapJudgement::Marvelous),
    {
        match *self {
            Hit::Hit { deviation } => judge.is_marv(deviation),
            Hit::Miss => false,
        }
    }

    pub fn is_perf(&self, judge: &Judge) -> (r: bool)
        ensures
            r == (self.classify_spec(*judge) == TapJudgement::Perfect),
    {
        match *self {
            Hit::Hit { deviation } => judge.is_perf(deviation),
            Hit::Miss => false,
        }
    }

    pub fn is_great(&self, judge: &Judge) -> (r: bool)
        ensures
            r == (self.classify_spec(*judge) == TapJudgement::Great),
    {
        match *self {
            Hit::Hit { deviation } => judge.is_great(deviation),
            Hit::Miss => false,
        }
    }

    pub fn is_good(&self, judge: &Judge) -> (r: bool)
        ensures
            r == (self.classify_spec(*judge) == TapJudgement::Good),
    {
        match *self {
            Hit::Hit { deviation } => judge.is_good(deviation),
            Hit::Miss => false,
        }
    }

    pub fn is_bad(&self, judge: &Judge) -> (r: bool)
        ensures
            r == (self.classify_spec(*judge) == TapJudgement::Bad),
    {
        match *self {
            Hit::Hit { deviation } => judge.is_bad(deviation),
            Hit::Miss => false,
        }
    }

    /// Whether this hit is judged a miss. This is true of a note that was
    /// hit too far off: 200 ms late is a bad on J1 and a miss on J4.
    pub fn is_considered_miss(&self, judge: &Judge) -> (r: bool)
        ensures
            r == (self.classify_spec(*judge) == TapJudgement::Miss),
    {
        match *self {
            Hit::Hit { deviation } => judge.is_miss(deviation),
            Hit::Miss => true,
        }
    }

    /// Whether this hit is judged a miss; the same as
    /// [`Hit::is_considered_miss`].
    pub fn is_miss(&self, judge: &Judge) -> (r: bool)
        ensures
            r == (self.classify_spec(*judge) == TapJudgement::Miss),
    {
        self.is_considered_miss(judge)
    }

    /// Whether the note was not hit at all.
    pub fn was_missed(&self) -> (r: bool)
        ensures
            r == (*self == Hit::Miss),
    {
        match *self {
            Hit::Hit { .. } => false,
            Hit::Miss => true,
        }
    }
}

/// Chart difficulty enum.
#[derive(Copy, Clone, Debug, Ord, PartialOrd, Eq, PartialEq, Hash, Structural)]
pub enum Difficulty {
    Beginner,
    Easy,
    Medium,
    Hard,
    Challenge,
    Edit,
}

/// The error of reading a difficulty from a text that names none.
#[derive(Debug, Copy, Clone, PartialEq, Eq, Hash, Default, Structural)]
pub struct DifficultyParseError;

/// A character in uppercase, where it is one of the letters `a` to `z`.
pub open spec fn ascii_upper(c: char) -> char {
    if 0x61 <= c as u32 <= 0x7A {
        ((c as u32 - 0x20) as u32) as char
    } else {
        c
    }
}

/// A character in lowercase, where it is one of the letters `A` to `Z`.
pub open spec fn ascii_lower(c: char) -> char {
    if 0x41 <= c as u32 <= 0x5A {
        ((c as u32 + 0x20) as u32) as char
    } else {
        c
    }
}

/// A text with each of its ASCII letters in uppercase.
pub open spec fn ascii_uppercase(text: Seq<char>) -> Seq<char> {
    Seq::new(text.len(), |i: int| ascii_upper(text[i]))
}

/// A text with each of its ASCII letters in lowercase.
pub open spec fn ascii_lowercase(text: Seq<char>) -> Seq<char> {
    Seq::new(text.len(), |i: int| ascii_lower(text[i]))
}

/// `str::to_ascii_uppercase` of the standard library: the letters `a` to
/// `z` become `A` to `Z`, every other character stays.
#[verifier::external_body]
fn to_ascii_uppercase(text: &str) -> (r: String)
    ensures
        r@ == ascii_uppercase(text@),
{
    text.to_ascii_uppercase()
}

/// `str::to_ascii_lowercase` of the standard library: the letters `A` to
/// `Z` become `a` to `z`, every other character stays.
#[verifier::external_body]
fn to_ascii_lowercase(text: &str) -> (r: String)
    ensures
        r@ == ascii_lowercase(text@),
{
    text.to_ascii_lowercase()
}

/// The difficulty that a short name in uppercase stands for.
pub open spec fn difficulty_of_short(name: Seq<char>) -> Option<Difficulty> {
    if name == "BG"@ {
        Some(Difficulty::Beginner)
    } else if name == "EZ"@ {
        Some(Difficulty::Easy)
    } else if name == "NM"@ {
        Some(Difficulty::Medium)
    } else if name == "HD"@ {
        Some(Difficulty::Hard)
    } else if name == "IN"@ {
        Some(Difficulty::Challenge)
    } else if name == "ED"@ {
        Some(Difficulty::Edit)
    } else {
        None
    }
}

/// The difficulty that a long name in lowercase stands for. Some
/// difficulties have several names.
pub open spec fn difficulty_of_long(name: Seq<char>) -> Option<Difficulty> {
    if name == "beginner"@ || name == "novice"@ {
        Some(Difficulty::Beginner)
    } else if name == "easy"@ {
        Some(Difficulty::Easy)
    } else if name == "medium"@ || name == "normal"@ {
        Some(Difficulty::Medium)
    } else if name == "hard"@ {
        Some(Difficulty::Hard)
    } else if name == "challenge"@ || name == "expert"@ || name == "insane"@ {
        Some(Difficulty::Challenge)
    } else if name == "edit"@ {
        Some(Difficulty::Edit)
    } else {
        None
    }
}

impl Difficulty {
    /// Parses a short difficulty string as found on the evaluation screen
    /// (BG, IN, ...), whatever its case.
    pub fn from_short_string(string: &str) -> (r: Option<Difficulty>)
        ensures
            r == difficulty_of_short(ascii_uppercase(string@)),
    {
        let upper = to_ascii_uppercase(string);
        let name = upper.as_str();
        if crate::skillsets::reads(name, "BG") {
            Some(Difficulty::Beginner)
        } else if crate::skillsets::reads(name, "EZ") {
            Some(Difficulty::Easy)
        } else if crate::skillsets::reads(name, "NM") {
            Some(Difficulty::Medium)
        } else if crate::skillsets::reads(name, "HD") {
            Some(Difficulty::Hard)
        } else if crate::skillsets::reads(name, "IN") {
            Some(Difficulty::Challenge)
        } else if crate::skillsets::reads(name, "ED") {
            Some(Difficulty::Edit)
        } else {
            None
        }
    }

    /// Parses a long difficulty string, whatever its case.
    pub fn from_long_string(string: &str) -> (r: Option<Difficulty>)
        ensures
            r == difficulty_of_long(ascii_lowercase(string@)),
    {
        let lower = to_ascii_lowercase(string);
        let name = lower.as_str();
        if crate::skillsets::reads(name, "beginner") || crate::skillsets::reads(name, "novice") {
            Some(Difficulty::Beginner)
        } else if crate::skillsets::reads(name, "easy") {
            Some(Difficulty::Easy)
        } else if crate::skillsets::reads(name, "medium") || crate::skillsets::reads(
            name,
            "normal",
        ) {
            Some(Difficulty::Medium)
        } else if crate::skillsets::reads(name, "hard") {
            Some(Difficulty::Hard)
        } else if crate::skillsets::reads(name, "challenge") || crate::skillsets::reads(
            name,
            "expert",
        ) || crate::skillsets::reads(name, "insane") {
            Some(Difficulty::Challenge)
        } else if crate::skillsets::reads(name, "edit") {
            Some(Difficulty::Edit)
        } else {
            None
        }
    }

    /// Parses a long difficulty string like [`Difficulty::from_long_string`];
    /// fails where it names no difficulty.
    pub fn parse(string: &str) -> (r: Result<Difficulty, DifficultyParseError>)
        ensures
            r == match difficulty_of_long(ascii_lowercase(string@)) {
                Some(difficulty) => Ok::<Difficulty, DifficultyParseError>(difficulty),
                None => Err::<Difficulty, DifficultyParseError>(DifficultyParseError),
            },
    {
        match Difficulty::from_long_string(string) {
            Some(difficulty) => Ok(difficulty),
            None => Err(DifficultyParseError),
        }
    }

    /// Generates a short difficulty string as found on the evaluation
    /// screen.
    pub fn to_short_string(self) -> (r: &'static str)
        ensures
            r@ == match self {
                Difficulty::Beginner => "BG"@,
                Difficulty::Easy => "EZ"@,
                Difficulty::Medium => "NM"@,
                Difficulty::Hard => "HD"@,
                Difficulty::Challenge => "IN"@,
                Difficulty::Edit => "ED"@,
            },
            difficulty_of_short(r@) == Some(self),
    {
        proof {
            reveal_strlit("BG");
            reveal_strlit("EZ");
            reveal_strlit("NM");
            reveal_strlit("HD");
            reveal_strlit("IN");
            reveal_strlit("ED");
            assert("BG"@[0] != "EZ"@[0]);
            assert("BG"@[0] != "NM"@[0]);
            assert("BG"@[0] != "HD"@[0]);
            assert("BG"@[0] != "IN"@[0]);
            assert("BG"@[0] != "ED"@[0]);
            assert("EZ"@[1] != "NM"@[1]);
            assert("EZ"@[0] != "HD"@[0]);
            assert("EZ"@[0] != "IN"@[0]);
            assert("EZ"@[1] != "ED"@[1]);
            assert("NM"@[0] != "HD"@[0]);
            assert("NM"@[0] != "IN"@[0]);
            assert("NM"@[0] != "ED"@[0]);
            assert("HD"@[0] != "IN"@[0]);
            assert("HD"@[0] != "ED"@[0]);
            assert("IN"@[0] != "ED"@[0]);
        }
        match self {
            Difficulty::Beginner => "BG",
            Difficulty::Easy => "EZ",
            Difficulty::Medium => "NM",
            Difficulty::Hard => "HD",
            Difficulty::Challenge => "IN",
            Difficulty::Edit => "ED",
        }
    }
}

/// Judgement data, including mines and holds.
#[derive(Debug, Eq, PartialEq, Clone, Copy, Default, Hash, Structural)]
pub struct FullJudgements {
    pub marvelouses: u32,
    pub perfects: u32,
    pub greats: u32,
    pub goods: u32,
    pub bads: u32,
    pub misses: u32,
    pub hit_mines: u32,
    pub held_holds: u32,
    pub let_go_holds: u32,
    pub missed_holds: u32,
}

/// Judgement data, only the basic tap judgements.
#[derive(Debug, Eq, PartialEq, Clone, Copy, Default, Hash, Structural)]
pub struct TapJudgements {
    pub marvelouses: u32,
    pub perfects: u32,
    pub greats: u32,
    pub goods: u32,
    pub bads: u32,
    pub misses: u32,
}

impl FullJudgements {
    /// The tap judgements among these.
    pub fn tap_judgements(&self) -> (r: TapJudgements)
        ensures
            r == (TapJudgements {
                marvelouses: self.marvelouses,
                perfects: self.perfects,
                greats: self.greats,
                goods: self.goods,
                bads: self.bads,
                misses: self.misses,
            }),
    {
        TapJudgements {
            marvelouses: self.marvelouses,
            perfects: self.perfects,
            greats: self.greats,
            goods: self.goods,
            bads: self.bads,
            misses: self.misses,
        }
    }
}

impl From<FullJudgements> for TapJudgements {
    fn from(judgements: FullJudgements) -> (r: TapJudgements) {
        judgements.tap_judgements()
    }
}

impl vstd::std_specs::convert::FromSpecImpl<FullJudgements> for TapJudgements {
    open spec fn obeys_from_spec() -> bool {
        true
    }

    open spec fn from_spec(judgements: FullJudgements) -> TapJudgements {
        TapJudgements {
            marvelouses: judgements.marvelouses,
            perfects: judgements.perfects,
            greats: judgements.greats,
            goods: judgements.goods,
            bads: judgements.bads,
            misses: judgements.misses,
        }
    }
}

/// Number of the first `upto` hits that `judge` judges as `judgement`.
pub open spec fn count_judged(hits: Seq<Hit>, judge: Judge, judgement: TapJudgement, upto: int) -> nat
    decreases upto,
{
    if upto <= 0 {
        0
    } else {
        count_judged(hits, judge, judgement, upto - 1) + if hits[upto - 1].classify_spec(judge)
            == judgement {
            1nat
        } else {
            0nat
        }
    }
}

impl TapJudgements {
    pub open spec fn get_spec(self, judgement: TapJudgement) -> u32 {
        match judgement {
            TapJudgement::Marvelous => self.marvelouses,
            TapJudgement::Perfect => self.perfects,
            TapJudgement::Great => self.greats,
            TapJudgement::Good => self.goods,
            TapJudgement::Bad => self.bads,
            TapJudgement::Miss => self.misses,
        }
    }

    /// The number of taps of a judgement.
    pub fn get(&self, judgement: TapJudgement) -> (r: u32)
        ensures
            r == self.get_spec(judgement),
    {
        match judgement {
            TapJudgement::Marvelous => self.marvelouses,
            TapJudgement::Perfect => self.perfects,
            TapJudgement::Great => self.greats,
            TapJudgement::Good => self.goods,
            TapJudgement::Bad => self.bads,
            TapJudgement::Miss => self.misses,
        }
    }

    /// Counts one more tap of a judgement.
    pub fn add(&mut self, judgement: TapJudgement)
        requires
            old(self).get_spec(judgement) < u32::MAX,
        ensures
            final(self).get_spec(judgement) == old(self).get_spec(judgement) + 1,
            forall|other: TapJudgement|
                other != judgement ==> final(self).get_spec(other) == old(self).get_spec(other),
    {
        match judgement {
            TapJudgement::Marvelous => {
                self.marvelouses = self.marvelouses + 1;
            },
            TapJudgement::Perfect => {
                self.perfects = self.perfects + 1;
            },
            TapJudgement::Great => {
                self.greats = self.greats + 1;
            },
            TapJudgement::Good => {
                self.goods = self.goods + 1;
            },
            TapJudgement::Bad => {
                self.bads = self.bads + 1;
            },
            TapJudgement::Miss => {
                self.misses = self.misses + 1;
            },
        }
    }

    /// The tap judgements of a replay: for each judgement the number of hits
    /// that the judge gives it.
    pub fn of_hits(hits: &Vec<Hit>, judge: &Judge) -> (r: TapJudgements)
        requires
            hits@.len() <= u32::MAX,
        ensures
            forall|judgement: TapJudgement| #[trigger]
                r.get_spec(judgement) == count_judged(
                    hits@,
                    *judge,
                    judgement,
                    hits@.len() as int,
                ),
    {
        let mut judgements = TapJudgements {
            marvelouses: 0,
            perfects: 0,
            greats: 0,
            goods: 0,
            bads: 0,
            misses: 0,
        };
        let mut i: usize = 0;
        while i < hits.len()
            invariant
                0 <= i <= hits@.len() <= u32::MAX,
                forall|judgement: TapJudgement| #[trigger]
                    judgements.get_spec(judgement) == count_judged(
                        hits@,
                        *judge,
                        judgement,
                        i as int,
                    ),
                forall|judgement: TapJudgement| #[trigger] judgements.get_spec(judgement) <= i,
            decreases hits@.len() - i,
        {
            let judgement = hits[i].classify(judge);
            assert(judgements.get_spec(judgement) <= i);
            judgements.add(judgement);
            i += 1;
        }
        judgements
    }
}

/// Whether the `len` flags from `start` on are all set.
pub open spec fn is_run(flags: Seq<bool>, start: int, len: int) -> bool {
    0 <= start && 0 <= len && start + len <= flags.len() && forall|k: int|
        start <= k < start + len ==> #[trigger] flags[k]
}

/// The length of the longest run of set flags: the longest combo of a
/// replay whose hits were tested one by one.
pub fn longest_true_sequence(flags: &Vec<bool>) -> (r: u32)
    requires
        flags@.len() <= u32::MAX,
    ensures
        exists|start: int| #[trigger] is_run(flags@, start, r as int),
        forall|start: int, len: int| #[trigger] is_run(flags@, start, len) ==> len <= r,
{
    let mut longest: u32 = 0;
    let mut current: u32 = 0;
    let mut i: usize = 0;
    assert(is_run(flags@, 0, 0));
    while i < flags.len()
        invariant
            0 <= i <= flags@.len() <= u32::MAX,
            current <= longest <= i,
            is_run(flags@, i - current, current as int),
            current < i ==> !flags@[i - current - 1],
            exists|start: int| #[trigger] is_run(flags@, start, longest as int),
            forall|start: int, len: int|
                start + len <= i && #[trigger] is_run(flags@, start, len) ==> len <= longest,
        decreases flags@.len() - i,
    {
        let ghost before = current;
        if flags[i] {
            current += 1;
            if current > longest {
                longest = current;
            }
        } else {
            current = 0;
        }
        proof {
            assert(is_run(flags@, i + 1 - current, current as int));
            assert forall|start: int, len: int|
                start + len <= i + 1 && #[trigger] is_run(flags@, start, len) implies len
                <= longest by {
                if start + len == i + 1 && len > 0 {
                    assert(flags@[i as int]);
                    if len > current {
                        assert(flags@[i + 1 - current - 1]);
                    }
                } else if len > 0 {
                    assert(is_run(flags@, start, len));
                }
            }
        }
        i += 1;
    }
    longest
}

/// Type of a note.
#[derive(Copy, Clone, Eq, PartialEq, Hash, Debug, Structural)]
pub enum NoteType {
    Tap,
    HoldHead,
    HoldTail,
    Mine,
    Lift,
    Keysound,
    Fake,
}

/// The direction in which the notes scroll.
#[derive(Copy, Clone, Debug, Eq, PartialEq, Hash, Structural)]
pub enum ScrollDirection {
    Upscroll,
    Downscroll,
}

/// The note times and hit times of one lane, in seconds. Nothing is
/// promised of their order.
#[derive(Debug, Clone, Default)]
pub struct NoteAndHitSeconds {
    pub note_seconds: Vec<Binary32>,
    pub hit_seconds: Vec<Binary32>,
}

/// Global ranks in each skillset category.
#[derive(Debug, Clone, Copy, Eq, PartialEq, Hash, Structural)]
pub struct UserRank {
    pub overall: u32,
    pub stream: u32,
    pub jumpstream: u32,
    pub handstream: u32,
    pub stamina: u32,
    pub jackspeed: u32,
    pub chordjack: u32,
    pub technical: u32,
}

impl UserRank {
    /// Get the rank in a specific skillset.
    pub fn get(&self, skillset: Skillset8) -> (r: u32)
        ensures
            r == match skillset {
                Skillset8::Overall => self.overall,
                Skillset8::Stream => self.stream,
                Skillset8::Jumpstream => self.jumpstream,
                Skillset8::Handstream => self.handstream,
                Skillset8::Stamina => self.stamina,
                Skillset8::Jackspeed => self.jackspeed,
                Skillset8::Chordjack => self.chordjack,
                Skillset8::Technical => self.technical,
            },
    {
        match skillset {
            Skillset8::Overall => self.overall,
            Skillset8::Stream => self.stream,
            Skillset8::Jumpstream => self.jumpstream,
            Skillset8::Handstream => self.handstream,
            Skillset8::Stamina => self.stamina,
            Skillset8::Jackspeed => self.jackspeed,
            Skillset8::Chordjack => self.chordjack,
            Skillset8::Technical => self.technical,
        }
    }
}

/// A row of notes as a set of bits: the least significant bit is the
/// leftmost lane.
#[derive(Copy, Clone, PartialEq, Eq, Default, Hash, Debug, Structural)]
pub struct NoteRow {
    bits: u32,
}

impl NoteRow {
    pub closed spec fn view(self) -> u32 {
        self.bits
    }

    /// Instantiates from a bitset, where the least significant bit
    /// corresponds to the leftmost lane.
    pub fn from_bits(bits: u32) -> (r: NoteRow)
        ensures
            r@ == bits,
    {
        NoteRow { bits }
    }

    /// Returns the notes as a bitset, where the least significant bit
    /// corresponds to the leftmost lane.
    pub fn bits(self) -> (r: u32)
        ensures
            r == self@,
    {
        self.bits
    }

    /// Returns whether there is a tap at the given index, where 0 is the
    /// leftmost lane.
    pub fn tap_at(self, index: u32) -> (r: bool)
        requires
            index < 32,
        ensures
            r == (self@ & (1u32 << index) != 0),
    {
        (self.bits & (1u32 << index)) > 0
    }

    /// Returns the number of lanes that this row spans: the place of its
    /// highest set bit, counted from 1, and 0 for an empty row.
    pub fn width(self) -> (r: u32)
        ensures
            r == 32 - u32_leading_zeros(self@),
            0 <= r <= 32,
            r == 0 <==> self@ == 0,
    {
        proof {
            vstd::std_specs::bits::axiom_u32_leading_zeros(self.bits);
        }
        32 - self.bits.leading_zeros()
    }
}

/// The finest subdivision of a beat on which a row of a chart lies.
#[derive(Copy, Clone, Debug, Eq, PartialEq, Hash, Structural)]
pub enum Snap {
    _4th,
    _8th,
    _12th,
    _16th,
    _24th,
    _32th,
    _48th,
    _64th,
    _192th,
}

impl Snap {
    /// The coarsest snap on which a row lies, the row counted in 192nds of
    /// a measure.
    pub open spec fn of_row(row: int) -> Snap {
        if row % 48 == 0 {
            Snap::_4th
        } else if row % 24 == 0 {
            Snap::_8th
        } else if row % 16 == 0 {
            Snap::_12th
        } else if row % 12 == 0 {
            Snap::_16th
        } else if row % 8 == 0 {
            Snap::_24th
        } else if row % 6 == 0 {
            Snap::_32th
        } else if row % 4 == 0 {
            Snap::_48th
        } else if row % 3 == 0 {
            Snap::_64th
        } else {
            Snap::_192th
        }
    }

    pub fn from_row(row: u32) -> (r: Snap)
        ensures
            r == Snap::of_row(row as int),
    {
        if row % (192 / 4) == 0 {
            Snap::_4th
        } else if row % (192 / 8) == 0 {
            Snap::_8th
        } else if row % (192 / 12) == 0 {
            Snap::_12th
        } else if row % (192 / 16) == 0 {
            Snap::_16th
        } else if row % (192 / 24) == 0 {
            Snap::_24th
        } else if row % (192 / 32) == 0 {
            Snap::_32th
        } else if row % (192 / 48) == 0 {
            Snap::_48th
        } else if row % (192 / 64) == 0 {
            Snap::_64th
        } else {
            Snap::_192th
        }
    }
}

/// Whether `bytes` are a key that starts with `initial`: 41 bytes, of which
/// the first is `initial` and the others are digits or letters `a` to `f`.
pub open spec fn is_key(bytes: Seq<u8>, initial: u8) -> bool {
    &&& bytes.len() == 41
    &&& bytes[0] == initial
    &&& forall|i: int|
        1 <= i < 41 ==> (0x30 <= #[trigger] bytes[i] <= 0x39) || (0x61 <= bytes[i] <= 0x66)
}

fn is_valid_key(key: &str, initial: u8) -> (r: bool)
    ensures
        r == is_key(key.spec_bytes(), initial),
{
    let bytes = key.as_bytes();
    if bytes.len() != 41 || bytes[0] != initial {
        return false;
    }
    let mut i: usize = 1;
    while i < 41
        invariant
            1 <= i <= 41,
            bytes@.len() == 41,
            bytes@ == key.spec_bytes(),
            bytes@[0] == initial,
            forall|k: int|
                1 <= k < i ==> (0x30 <= #[trigger] bytes@[k] <= 0x39) || (0x61 <= bytes@[k] <= 0x66),
        decreases 41 - i,
    {
        let b = bytes[i];
        if !((0x30 <= b && b <= 0x39) || (0x61 <= b && b <= 0x66)) {
            return false;
        }
        i += 1;
    }
    true
}

/// The key of a score: `S` and 40 hexadecimal digits in lowercase.
#[derive(Debug, Eq, PartialEq, Hash)]
pub struct Scorekey {
    key: String,
}

/// The key of a chart: `X` and 40 hexadecimal digits in lowercase.
#[derive(Debug, Eq, PartialEq, Hash)]
pub struct Chartkey {
    key: String,
}

impl Scorekey {
    #[verifier::type_invariant]
    spec fn inv(self) -> bool {
        is_key(encode_utf8(self.key@), 0x53)
    }

    pub closed spec fn view(self) -> Seq<char> {
        self.key@
    }

    /// Check if the given string represents a valid key.
    pub fn is_valid(key: &str) -> (r: bool)
        ensures
            r == is_key(key.spec_bytes(), 0x53),
    {
        is_valid_key(key, 0x53)
    }

    /// Create a new key from the given string, or `None` if the string is
    /// no valid key.
    pub fn new(key: String) -> (r: Option<Scorekey>)
        ensures
            r.is_some() <==> is_key(encode_utf8(key@), 0x53),
            r.is_some() ==> r.unwrap()@ == key@,
    {
        if is_valid_key(key.as_str(), 0x53) {
            Some(Scorekey { key })
        } else {
            None
        }
    }

    /// Get a reference to the underlying string.
    pub fn as_str(&self) -> (r: &str)
        ensures
            r@ == self@,
            is_key(r.spec_bytes(), 0x53),
    {
        proof {
            use_type_invariant(self);
        }
        self.key.as_str()
    }

    /// Convert this key into a `String`.
    pub fn into_string(self) -> (r: String)
        ensures
            r@ == self@,
    {
        self.key
    }
}

impl Chartkey {
    #[verifier::type_invariant]
    spec fn inv(self) -> bool {
        is_key(encode_utf8(self.key@), 0x58)
    }

    pub closed spec fn view(self) -> Seq<char> {
        self.key@
    }

    /// Check if the given string represents a valid key.
    pub fn is_valid(key: &str) -> (r: bool)
        ensures
            r == is_key(key.spec_bytes(), 0x58),
    {
        is_valid_key(key, 0x58)
    }

    /// Create a new key from the given string, or `None` if the string is
    /// no valid key.
    pub fn new(key: String) -> (r: Option<Chartkey>)
        ensures
            r.is_some() <==> is_key(encode_utf8(key@), 0x58),
            r.is_some() ==> r.unwrap()@ == key@,
    {
        if is_valid_key(key.as_str(), 0x58) {
            Some(Chartkey { key })
        } else {
            None
        }
    }

    /// Get a reference to the underlying string.
    pub fn as_str(&self) -> (r: &str)
        ensures
            r@ == self@,
            is_key(r.spec_bytes(), 0x58),
    {
        proof {
            use_type_invariant(self);
        }
        self.key.as_str()
    }

    /// Convert this key into a `String`.
    pub fn into_string(self) -> (r: String)
        ensures
            r@ == self@,
    {
        self.key
    }
}

} // verus!
