//! Skillsets: the seven dimensions of difficulty and skill, and the overall
//! value that is derived from them.

use vstd::prelude::*;
use crate::binary32::Binary32;

verus! {

/// Skillsets enum, excluding overall.
#[derive(Copy, Clone, Debug, Ord, PartialOrd, Eq, PartialEq, Hash, Structural)]
pub enum Skillset7 {
    Stream,
    Jumpstream,
    Handstream,
    Stamina,
    Jackspeed,
    Chordjack,
    Technical,
}

/// Skillsets enum, including overall.
#[derive(Copy, Clone, Debug, Ord, PartialOrd, Eq, PartialEq, Hash, Structural)]
pub enum Skillset8 {
    Overall,
    Stream,
    Jumpstream,
    Handstream,
    Stamina,
    Jackspeed,
    Chordjack,
    Technical,
}

/// The lowercase form of a text, as Unicode defines it.
pub uninterp spec fn unicode_lowercase(text: Seq<char>) -> Seq<char>;

/// Lowercases a text with `str::to_lowercase` of the standard library. The
/// result is a function of the text alone; which function is Unicode's
/// matter and is not stated here.
#[verifier::external_body]
fn to_lowercase(text: &str) -> (r: String)
    ensures
        r@ == unicode_lowercase(text@),
{
    text.to_lowercase()
}

/// Whether `text` reads `word`.
pub fn reads(text: &str, word: &str) -> (r: bool)
    ensures
        r == (text@ == word@),
{
    let a = text.to_owned();
    let b = word.to_owned();
    a == b
}

/// The skillset that a lowercase name stands for. Most spellings that the
/// community uses are names.
pub open spec fn skillset_named(name: Seq<char>) -> Option<Skillset8> {
    if name == "overall"@ {
        Some(Skillset8::Overall)
    } else if name == "stream"@ {
        Some(Skillset8::Stream)
    } else if name == "js"@ || name == "jumpstream"@ {
        Some(Skillset8::Jumpstream)
    } else if name == "hs"@ || name == "handstream"@ {
        Some(Skillset8::Handstream)
    } else if name == "stam"@ || name == "stamina"@ {
        Some(Skillset8::Stamina)
    } else if name == "jack"@ || name == "jacks"@ || name == "jackspeed"@ {
        Some(Skillset8::Jackspeed)
    } else if name == "cj"@ || name == "chordjack"@ || name == "chordjacks"@ {
        Some(Skillset8::Chordjack)
    } else if name == "tech"@ || name == "technical"@ {
        Some(Skillset8::Technical)
    } else {
        None
    }
}

impl Skillset8 {
    /// The skillset without overall: `None` for overall.
    pub open spec fn without_overall(self) -> Option<Skillset7> {
        match self {
            Skillset8::Overall => None,
            Skillset8::Stream => Some(Skillset7::Stream),
            Skillset8::Jumpstream => Some(Skillset7::Jumpstream),
            Skillset8::Handstream => Some(Skillset7::Handstream),
            Skillset8::Stamina => Some(Skillset7::Stamina),
            Skillset8::Jackspeed => Some(Skillset7::Jackspeed),
            Skillset8::Chordjack => Some(Skillset7::Chordjack),
            Skillset8::Technical => Some(Skillset7::Technical),
        }
    }

    /// Converts a lowercase name into a skillset.
    pub fn from_lowercase_name(name: &str) -> (r: Option<Skillset8>)
        ensures
            r == skillset_named(name@),
    {
        if reads(name, "overall") {
            Some(Skillset8::Overall)
        } else if reads(name, "stream") {
            Some(Skillset8::Stream)
        } else if reads(name, "js") || reads(name, "jumpstream") {
            Some(Skillset8::Jumpstream)
        } else if reads(name, "hs") || reads(name, "handstream") {
            Some(Skillset8::Handstream)
        } else if reads(name, "stam") || reads(name, "stamina") {
            Some(Skillset8::Stamina)
        } else if reads(name, "jack") || reads(name, "jacks") || reads(name, "jackspeed") {
            Some(Skillset8::Jackspeed)
        } else if reads(name, "cj") || reads(name, "chordjack") || reads(name, "chordjacks") {
            Some(Skillset8::Chordjack)
        } else if reads(name, "tech") || reads(name, "technical") {
            Some(Skillset8::Technical)
        } else {
            None
        }
    }

    /// Converts user input into a skillset, whatever its case.
    ///
    /// Returns `None` if the input, in lowercase, is no name of a skillset.
    pub fn from_user_input(input: &str) -> (r: Option<Skillset8>)
        ensures
            r == skillset_named(unicode_lowercase(input@)),
    {
        let lower = to_lowercase(input);
        Skillset8::from_lowercase_name(lower.as_str())
    }

    /// All skillsets, overall first.
    pub fn list() -> (r: [Skillset8; 8])
        ensures
            r@ == seq![
                Skillset8::Overall,
                Skillset8::Stream,
                Skillset8::Jumpstream,
                Skillset8::Handstream,
                Skillset8::Stamina,
                Skillset8::Jackspeed,
                Skillset8::Chordjack,
                Skillset8::Technical,
            ],
    {
        [
            Skillset8::Overall,
            Skillset8::Stream,
            Skillset8::Jumpstream,
            Skillset8::Handstream,
            Skillset8::Stamina,
            Skillset8::Jackspeed,
            Skillset8::Chordjack,
            Skillset8::Technical,
        ]
    }

    /// All skillsets in a vector, in the order of [`Skillset8::list`].
    pub fn iter() -> (r: Vec<Skillset8>)
        ensures
            r@ == seq![
                Skillset8::Overall,
                Skillset8::Stream,
                Skillset8::Jumpstream,
                Skillset8::Handstream,
                Skillset8::Stamina,
                Skillset8::Jackspeed,
                Skillset8::Chordjack,
                Skillset8::Technical,
            ],
    {
        vec![
            Skillset8::Overall,
            Skillset8::Stream,
            Skillset8::Jumpstream,
            Skillset8::Handstream,
            Skillset8::Stamina,
            Skillset8::Jackspeed,
            Skillset8::Chordjack,
            Skillset8::Technical,
        ]
    }

    /// Converts into a `Skillset7`; overall becomes `None`.
    pub fn into_skillset7(self) -> (r: Option<Skillset7>)
        ensures
            r == self.without_overall(),
    {
        match self {
            Skillset8::Overall => None,
            Skillset8::Stream => Some(Skillset7::Stream),
            Skillset8::Jumpstream => Some(Skillset7::Jumpstream),
            Skillset8::Handstream => Some(Skillset7::Handstream),
            Skillset8::Stamina => Some(Skillset7::Stamina),
            Skillset8::Jackspeed => Some(Skillset7::Jackspeed),
            Skillset8::Chordjack => Some(Skillset7::Chordjack),
            Skillset8::Technical => Some(Skillset7::Technical),
        }
    }

    /// The name of the skillset, as it is written.
    pub fn name(self) -> (r: &'static str)
        ensures
            r@ == match self {
                Skillset8::Overall => "Overall"@,
                Skillset8::Stream => "Stream"@,
                Skillset8::Jumpstream => "Jumpstream"@,
                Skillset8::Handstream => "Handstream"@,
                Skillset8::Stamina => "Stamina"@,
                Skillset8::Jackspeed => "Jackspeed"@,
                Skillset8::Chordjack => "Chordjack"@,
                Skillset8::Technical => "Technical"@,
            },
    {
        match self {
            Skillset8::Overall => "Overall",
            Skillset8::Stream => "Stream",
            Skillset8::Jumpstream => "Jumpstream",
            Skillset8::Handstream => "Handstream",
            Skillset8::Stamina => "Stamina",
            Skillset8::Jackspeed => "Jackspeed",
            Skillset8::Chordjack => "Chordjack",
            Skillset8::Technical => "Technical",
        }
    }
}

impl Skillset7 {
    /// The same skillset among the eight.
    pub open spec fn with_overall(self) -> Skillset8 {
        match self {
            Skillset7::Stream => Skillset8::Stream,
            Skillset7::Jumpstream => Skillset8::Jumpstream,
            Skillset7::Handstream => Skillset8::Handstream,
            Skillset7::Stamina => Skillset8::Stamina,
            Skillset7::Jackspeed => Skillset8::Jackspeed,
            Skillset7::Chordjack => Skillset8::Chordjack,
            Skillset7::Technical => Skillset8::Technical,
        }
    }

    /// Same as [`Skillset8::from_user_input`], but `None` for overall.
    pub fn from_user_input(input: &str) -> (r: Option<Skillset7>)
        ensures
            r == match skillset_named(unicode_lowercase(input@)) {
                Some(skillset) => skillset.without_overall(),
                None => None,
            },
    {
        match Skillset8::from_user_input(input) {
            Some(skillset) => skillset.into_skillset7(),
            None => None,
        }
    }

    /// All skillsets but overall.
    pub fn list() -> (r: [Skillset7; 7])
        ensures
            r@ == seq![
                Skillset7::Stream,
                Skillset7::Jumpstream,
                Skillset7::Handstream,
                Skillset7::Stamina,
                Skillset7::Jackspeed,
                Skillset7::Chordjack,
                Skillset7::Technical,
            ],
    {
        [
            Skillset7::Stream,
            Skillset7::Jumpstream,
            Skillset7::Handstream,
            Skillset7::Stamina,
            Skillset7::Jackspeed,
            Skillset7::Chordjack,
            Skillset7::Technical,
        ]
    }

    /// All skillsets but overall in a vector, in the order of
    /// [`Skillset7::list`].
    pub fn iter() -> (r: Vec<Skillset7>)
        ensures
            r@ == seq![
                Skillset7::Stream,
                Skillset7::Jumpstream,
                Skillset7::Handstream,
                Skillset7::Stamina,
                Skillset7::Jackspeed,
                Skillset7::Chordjack,
                Skillset7::Technical,
            ],
    {
        vec![
            Skillset7::Stream,
            Skillset7::Jumpstream,
            Skillset7::Handstream,
            Skillset7::Stamina,
            Skillset7::Jackspeed,
            Skillset7::Chordjack,
            Skillset7::Technical,
        ]
    }

    pub fn into_skillset8(self) -> (r: Skillset8)
        ensures
            r == self.with_overall(),
    {
        match self {
            Skillset7::Stream => Skillset8::Stream,
            Skillset7::Jumpstream => Skillset8::Jumpstream,
            Skillset7::Handstream => Skillset8::Handstream,
            Skillset7::Stamina => Skillset8::Stamina,
            Skillset7::Jackspeed => Skillset8::Jackspeed,
            Skillset7::Chordjack => Skillset8::Chordjack,
            Skillset7::Technical => Skillset8::Technical,
        }
    }

    /// The name of the skillset, as it is written.
    pub fn name(self) -> (r: &'static str)
        ensures
            r@ == match self {
                Skillset7::Stream => "Stream"@,
                Skillset7::Jumpstream => "Jumpstream"@,
                Skillset7::Handstream => "Handstream"@,
                Skillset7::Stamina => "Stamina"@,
                Skillset7::Jackspeed => "Jackspeed"@,
                Skillset7::Chordjack => "Chordjack"@,
                Skillset7::Technical => "Technical"@,
            },
    {
        self.into_skillset8().name()
    }
}

/// Going from seven skillsets to eight and back gives the skillset again,
/// and overall is the one skillset of the eight that is none of the seven.
pub proof fn lemma_skillset_round_trip(seven: Skillset7, eight: Skillset8)
    ensures
        seven.with_overall().without_overall() == Some(seven),
        eight.without_overall().is_none() <==> eight == Skillset8::Overall,
        eight.without_overall().is_some() ==> eight.without_overall().unwrap().with_overall()
            == eight,
{
}

/// Skillset information, excluding overall.
#[derive(Copy, Clone, Debug, PartialEq, Eq, Structural)]
pub struct Skillsets7 {
    pub stream: Binary32,
    pub jumpstream: Binary32,
    pub handstream: Binary32,
    pub stamina: Binary32,
    pub jackspeed: Binary32,
    pub chordjack: Binary32,
    pub technical: Binary32,
}

/// Skillset information, including overall.
#[derive(Copy, Clone, Debug, PartialEq, Eq, Structural)]
pub struct Skillsets8 {
    pub overall: Binary32,
    pub stream: Binary32,
    pub jumpstream: Binary32,
    pub handstream: Binary32,
    pub stamina: Binary32,
    pub jackspeed: Binary32,
    pub chordjack: Binary32,
    pub technical: Binary32,
}

impl Skillsets7 {
    pub open spec fn get_spec(self, ss: Skillset7) -> Binary32 {
        match ss {
            Skillset7::Stream => self.stream,
            Skillset7::Jumpstream => self.jumpstream,
            Skillset7::Handstream => self.handstream,
            Skillset7::Stamina => self.stamina,
            Skillset7::Jackspeed => self.jackspeed,
            Skillset7::Chordjack => self.chordjack,
            Skillset7::Technical => self.technical,
        }
    }

    /// The seven values in the order of [`Skillset7::list`].
    pub open spec fn values(self) -> Seq<Binary32> {
        seq![
            self.stream,
            self.jumpstream,
            self.handstream,
            self.stamina,
            self.jackspeed,
            self.chordjack,
            self.technical,
        ]
    }

    /// The largest of the seven values, where a NaN loses against a number.
    pub open spec fn max_skillset(self) -> Binary32 {
        self.stream.max_spec(self.jumpstream).max_spec(self.handstream).max_spec(
            self.stamina,
        ).max_spec(self.jackspeed).max_spec(self.chordjack).max_spec(self.technical)
    }

    pub open spec fn with_overall_spec(self, overall: Binary32) -> Skillsets8 {
        Skillsets8 {
            overall,
            stream: self.stream,
            jumpstream: self.jumpstream,
            handstream: self.handstream,
            stamina: self.stamina,
            jackspeed: self.jackspeed,
            chordjack: self.chordjack,
            technical: self.technical,
        }
    }

    /// Get a specific skillset value.
    pub fn get(&self, ss: Skillset7) -> (r: Binary32)
        ensures
            r == self.get_spec(ss),
    {
        match ss {
            Skillset7::Stream => self.stream,
            Skillset7::Jumpstream => self.jumpstream,
            Skillset7::Handstream => self.handstream,
            Skillset7::Stamina => self.stamina,
            Skillset7::Jackspeed => self.jackspeed,
            Skillset7::Chordjack => self.chordjack,
            Skillset7::Technical => self.technical,
        }
    }

    /// The seven values in the order of [`Skillset7::list`]: what a rating
    /// search over one score's skillsets aggregates.
    pub fn to_array(&self) -> (r: [Binary32; 7])
        ensures
            r@ == self.values(),
    {
        [
            self.stream,
            self.jumpstream,
            self.handstream,
            self.stamina,
            self.jackspeed,
            self.chordjack,
            self.technical,
        ]
    }

    /// The record of seven values in the order of [`Skillset7::list`].
    pub fn from_array(values: [Binary32; 7]) -> (r: Skillsets7)
        ensures
            r.values() == values@,
    {
        let r = Skillsets7 {
            stream: values[0],
            jumpstream: values[1],
            handstream: values[2],
            stamina: values[3],
            jackspeed: values[4],
            chordjack: values[5],
            technical: values[6],
        };
        assert(r.values() =~= values@);
        r
    }

    pub fn with_overall(&self, overall: Binary32) -> (r: Skillsets8)
        ensures
            r == self.with_overall_spec(overall),
    {
        Skillsets8 {
            overall,
            stream: self.stream,
            jumpstream: self.jumpstream,
            handstream: self.handstream,
            stamina: self.stamina,
            jackspeed: self.jackspeed,
            chordjack: self.chordjack,
            technical: self.technical,
        }
    }

    /// The largest of the seven values.
    pub fn largest(&self) -> (r: Binary32)
        ensures
            r == self.max_skillset(),
    {
        self.stream.max(self.jumpstream).max(self.handstream).max(self.stamina).max(
            self.jackspeed,
        ).max(self.chordjack).max(self.technical)
    }

    /// The skillsets of a score with their overall: the larger of
    /// `aggregated`, the rating that the search over the seven values found,
    /// and the largest of the seven values. So the overall is never below
    /// the best skillset.
    pub fn calc_ssr_overall(&self, aggregated: Binary32) -> (r: Skillsets8)
        ensures
            r == self.with_overall_spec(aggregated.max_spec(self.max_skillset())),
    {
        let overall = aggregated.max(self.largest());
        self.with_overall(overall)
    }

    /// The skillsets of a score with their overall as it was before version
    /// 0.70: the largest of the seven values.
    pub fn calc_ssr_overall_pre_070(&self) -> (r: Skillsets8)
        ensures
            r == self.with_overall_spec(self.max_skillset()),
    {
        self.with_overall(self.largest())
    }

    /// Builds a record from a value for each skillset.
    pub fn generate<F: Fn(Skillset7) -> Binary32>(generator: F) -> (r: Skillsets7)
        requires
            forall|ss: Skillset7| call_requires(generator, (ss,)),
        ensures
            forall|ss: Skillset7| call_ensures(generator, (ss,), #[trigger] r.get_spec(ss)),
    {
        let r = Skillsets7 {
            stream: generator(Skillset7::Stream),
            jumpstream: generator(Skillset7::Jumpstream),
            handstream: generator(Skillset7::Handstream),
            stamina: generator(Skillset7::Stamina),
            jackspeed: generator(Skillset7::Jackspeed),
            chordjack: generator(Skillset7::Chordjack),
            technical: generator(Skillset7::Technical),
        };
        assert forall|ss: Skillset7| call_ensures(generator, (ss,), #[trigger] r.get_spec(ss)) by {
            match ss {
                Skillset7::Stream => {},
                Skillset7::Jumpstream => {},
                Skillset7::Handstream => {},
                Skillset7::Stamina => {},
                Skillset7::Jackspeed => {},
                Skillset7::Chordjack => {},
                Skillset7::Technical => {},
            }
        }
        r
    }

    /// The skillsets of a player with their overall: `aggregated`, the
    /// rating that the search over the seven values found.
    pub fn calc_player_overall(&self, aggregated: Binary32) -> (r: Skillsets8)
        ensures
            r == self.with_overall_spec(aggregated),
    {
        self.with_overall(aggregated)
    }
}

impl Skillsets8 {
    pub open spec fn get_spec(self, ss: Skillset8) -> Binary32 {
        match ss {
            Skillset8::Overall => self.overall,
            Skillset8::Stream => self.stream,
            Skillset8::Jumpstream => self.jumpstream,
            Skillset8::Handstream => self.handstream,
            Skillset8::Stamina => self.stamina,
            Skillset8::Jackspeed => self.jackspeed,
            Skillset8::Chordjack => self.chordjack,
            Skillset8::Technical => self.technical,
        }
    }

    pub open spec fn to_skillsets7_spec(self) -> Skillsets7 {
        Skillsets7 {
            stream: self.stream,
            jumpstream: self.jumpstream,
            handstream: self.handstream,
            stamina: self.stamina,
            jackspeed: self.jackspeed,
            chordjack: self.chordjack,
            technical: self.technical,
        }
    }

    /// Get a specific skillset value.
    pub fn get(&self, ss: Skillset8) -> (r: Binary32)
        ensures
            r == self.get_spec(ss),
    {
        match ss {
            Skillset8::Overall => self.overall,
            Skillset8::Stream => self.stream,
            Skillset8::Jumpstream => self.jumpstream,
            Skillset8::Handstream => self.handstream,
            Skillset8::Stamina => self.stamina,
            Skillset8::Jackspeed => self.jackspeed,
            Skillset8::Chordjack => self.chordjack,
            Skillset8::Technical => self.technical,
        }
    }

    /// Builds a record from a value for each skillset, overall first.
    pub fn generate<F: Fn(Skillset8) -> Binary32>(generator: F) -> (r: Skillsets8)
        requires
            forall|ss: Skillset8| call_requires(generator, (ss,)),
        ensures
            forall|ss: Skillset8| call_ensures(generator, (ss,), #[trigger] r.get_spec(ss)),
    {
        let r = Skillsets8 {
            overall: generator(Skillset8::Overall),
            stream: generator(Skillset8::Stream),
            jumpstream: generator(Skillset8::Jumpstream),
            handstream: generator(Skillset8::Handstream),
            stamina: generator(Skillset8::Stamina),
            jackspeed: generator(Skillset8::Jackspeed),
            chordjack: generator(Skillset8::Chordjack),
            technical: generator(Skillset8::Technical),
        };
        assert forall|ss: Skillset8| call_ensures(generator, (ss,), #[trigger] r.get_spec(ss)) by {
            match ss {
                Skillset8::Overall => {},
                Skillset8::Stream => {},
                Skillset8::Jumpstream => {},
                Skillset8::Handstream => {},
                Skillset8::Stamina => {},
                Skillset8::Jackspeed => {},
                Skillset8::Chordjack => {},
                Skillset8::Technical => {},
            }
        }
        r
    }

    pub fn to_skillsets7(&self) -> (r: Skillsets7)
        ensures
            r == self.to_skillsets7_spec(),
    {
        Skillsets7 {
            stream: self.stream,
            jumpstream: self.jumpstream,
            handstream: self.handstream,
            stamina: self.stamina,
            jackspeed: self.jackspeed,
            chordjack: self.chordjack,
            technical: self.technical,
        }
    }
}

/// The overall of a score is never below one of its skillsets, a NaN aside:
/// where the seven values and the aggregated rating are numbers, each of
/// them is `<=` the overall.
pub proof fn lemma_ssr_overall_is_upper_bound(
    skillsets: Skillsets7,
    aggregated: Binary32,
    ss: Skillset7,
)
    requires
        !aggregated.nan(),
        forall|s: Skillset7| !(#[trigger] skillsets.get_spec(s)).nan(),
    ensures
        skillsets.get_spec(ss).le_spec(aggregated.max_spec(skillsets.max_skillset())),
        aggregated.le_spec(aggregated.max_spec(skillsets.max_skillset())),
        skillsets.get_spec(ss).le_spec(skillsets.max_skillset()),
{
    assert(!skillsets.get_spec(Skillset7::Stream).nan());
    assert(!skillsets.get_spec(Skillset7::Jumpstream).nan());
    assert(!skillsets.get_spec(Skillset7::Handstream).nan());
    assert(!skillsets.get_spec(Skillset7::Stamina).nan());
    assert(!skillsets.get_spec(Skillset7::Jackspeed).nan());
    assert(!skillsets.get_spec(Skillset7::Chordjack).nan());
    assert(!skillsets.get_spec(Skillset7::Technical).nan());
}

/// Skillset information of a chart: its difficulty in each skillset, as
/// rated for the chart itself or for a score on it.
#[derive(Copy, Clone, Debug, PartialEq, Eq, Structural)]
pub struct ChartSkillsets {
    pub stream: Binary32,
    pub jumpstream: Binary32,
    pub handstream: Binary32,
    pub stamina: Binary32,
    pub jackspeed: Binary32,
    pub chordjack: Binary32,
    pub technical: Binary32,
}

/// Skillset information of a player: the rating in each skillset.
#[derive(Copy, Clone, Debug, PartialEq, Eq, Structural)]
pub struct UserSkillsets {
    pub stream: Binary32,
    pub jumpstream: Binary32,
    pub handstream: Binary32,
    pub stamina: Binary32,
    pub jackspeed: Binary32,
    pub chordjack: Binary32,
    pub technical: Binary32,
}

impl ChartSkillsets {
    /// The seven values as a record of skillsets.
    pub open spec fn skillsets_spec(self) -> Skillsets7 {
        Skillsets7 {
            stream: self.stream,
            jumpstream: self.jumpstream,
            handstream: self.handstream,
            stamina: self.stamina,
            jackspeed: self.jackspeed,
            chordjack: self.chordjack,
            technical: self.technical,
        }
    }

    /// The overall difficulty: the larger of the aggregated rating and the
    /// largest skillset.
    pub open spec fn overall_spec(self, aggregated: Binary32) -> Binary32 {
        aggregated.max_spec(self.skillsets_spec().max_skillset())
    }

    pub fn skillsets(&self) -> (r: Skillsets7)
        ensures
            r == self.skillsets_spec(),
    {
        Skillsets7 {
            stream: self.stream,
            jumpstream: self.jumpstream,
            handstream: self.handstream,
            stamina: self.stamina,
            jackspeed: self.jackspeed,
            chordjack: self.chordjack,
            technical: self.technical,
        }
    }

    /// Return the overall skillset, given `aggregated`, the rating that the
    /// search over the seven values found: the larger of it and the largest
    /// skillset.
    pub fn overall(&self, aggregated: Binary32) -> (r: Binary32)
        ensures
            r == self.overall_spec(aggregated),
    {
        aggregated.max(self.skillsets().largest())
    }

    /// Return the overall skillset as it was before version 0.70: the
    /// largest skillset.
    pub fn overall_pre_070(&self) -> (r: Binary32)
        ensures
            r == self.skillsets_spec().max_skillset(),
    {
        self.skillsets().largest()
    }

    /// Get a specific skillset value; the overall is derived from
    /// `aggregated` as in [`ChartSkillsets::overall`].
    pub fn get(&self, skillset: Skillset8, aggregated: Binary32) -> (r: Binary32)
        ensures
            r == match skillset.without_overall() {
                Some(ss) => self.skillsets_spec().get_spec(ss),
                None => self.overall_spec(aggregated),
            },
    {
        match skillset.into_skillset7() {
            Some(ss) => self.skillsets().get(ss),
            None => self.overall(aggregated),
        }
    }

    /// Get a specific skillset value; the overall is that of before
    /// version 0.70.
    pub fn get_pre_070(&self, skillset: Skillset8) -> (r: Binary32)
        ensures
            r == match skillset.without_overall() {
                Some(ss) => self.skillsets_spec().get_spec(ss),
                None => self.skillsets_spec().max_skillset(),
            },
    {
        match skillset.into_skillset7() {
            Some(ss) => self.skillsets().get(ss),
            None => self.overall_pre_070(),
        }
    }
}

impl UserSkillsets {
    /// The seven values as a record of skillsets.
    pub open spec fn skillsets_spec(self) -> Skillsets7 {
        Skillsets7 {
            stream: self.stream,
            jumpstream: self.jumpstream,
            handstream: self.handstream,
            stamina: self.stamina,
            jackspeed: self.jackspeed,
            chordjack: self.chordjack,
            technical: self.technical,
        }
    }

    pub fn skillsets(&self) -> (r: Skillsets7)
        ensures
            r == self.skillsets_spec(),
    {
        Skillsets7 {
            stream: self.stream,
            jumpstream: self.jumpstream,
            handstream: self.handstream,
            stamina: self.stamina,
            jackspeed: self.jackspeed,
            chordjack: self.chordjack,
            technical: self.technical,
        }
    }

    /// Get a specific skillset value. The overall of a player is `overall`:
    /// the rating that the search over the seven values found, or their
    /// mean by the formula of before version 0.70.
    pub fn get(&self, skillset: Skillset8, overall: Binary32) -> (r: Binary32)
        ensures
            r == match skillset.without_overall() {
                Some(ss) => self.skillsets_spec().get_spec(ss),
                None => overall,
            },
    {
        match skillset.into_skillset7() {
            Some(ss) => self.skillsets().get(ss),
            None => overall,
        }
    }
}

impl From<Skillsets8> for Skillsets7 {
    fn from(s: Skillsets8) -> (r: Skillsets7) {
        s.to_skillsets7()
    }
}

impl vstd::std_specs::convert::FromSpecImpl<Skillsets8> for Skillsets7 {
    open spec fn obeys_from_spec() -> bool {
        true
    }

    open spec fn from_spec(s: Skillsets8) -> Skillsets7 {
        s.to_skillsets7_spec()
    }
}

impl From<Skillset7> for Skillset8 {
    fn from(ss: Skillset7) -> (r: Skillset8) {
        ss.into_skillset8()
    }
}

impl vstd::std_specs::convert::FromSpecImpl<Skillset7> for Skillset8 {
    open spec fn obeys_from_spec() -> bool {
        true
    }

    open spec fn from_spec(ss: Skillset7) -> Skillset8 {
        ss.with_overall()
    }
}

} // verus!
