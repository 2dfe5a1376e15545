//! Performance metrics for the rhythm game Etterna: judgement of note hits,
//! assignment of hits to notes, skill-rating searches and replay parsing.
//!
//! Numbers travel through this library as IEEE 754 bit patterns
//! ([`binary32::Binary32`]); floating-point arithmetic is left to the caller.

pub mod binary32;
pub mod judge;
pub mod structs;
pub mod wifescore;
pub mod rescore;
pub mod rating_calc;
pub mod skillsets;
pub mod timeline;
pub mod note_subsets;
pub mod savegame;
pub mod pattern;
pub mod file_size;
pub mod rate;
pub mod wife;
pub mod binary64;
pub mod util;
pub mod timing_info;

pub use binary32::Binary32;
pub use binary64::Binary64;
pub use file_size::FileSize;
pub use judge::Judge;
pub use note_subsets::FastestComboInfo;
pub use pattern::Pattern;
pub use rate::Rate;
pub use rating_calc::RatingFormula;
pub use rating_calc::RatingSearch;
pub use rescore::matching_scorer::MatchingScorer;
pub use rescore::naive_scorer::NaiveScorer;
pub use rescore::LaneAssignment;
pub use rescore::ScoringResult;
pub use rescore::ScoringSystem;
pub use savegame::ReplayV2Fast;
pub use savegame::ReplayV2Note;
pub use skillsets::Skillset7;
pub use skillsets::Skillset8;
pub use skillsets::Skillsets7;
pub use skillsets::Skillsets8;
pub use structs::Hit;
pub use structs::TapJudgement;
pub use timeline::SkillTimeline;
pub use timing_info::TimingInfo;
pub use wife::Wife2;
pub use wife::Wife3;
pub use wifescore::Wifescore;
