//! Patterns: ordered sequences of elementary integer transformation steps,
//! used to describe how one integer in a sequence is derived from the
//! previous one (e.g. "add 3, then multiply by 2").

pub mod digits;
pub mod pattern;

pub use pattern::CustomPatternElem;
pub use pattern::Pattern;
pub use pattern::PatternElem;
