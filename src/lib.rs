//! A tiny typed pattern language: literal letters, concatenation, bracketed
//! alternation and numbered capturing groups, compiled into a tree, matched by
//! leftmost-committed backtracking, with a static classification of whether
//! capture group 1 is present in every match.
pub mod pattern;
pub mod matcher;
pub mod compile;
pub mod capture;
pub mod regex;
pub mod syntax;
pub mod literal;

pub use capture::Presence;
pub use compile::CompileError;
pub use pattern::{GroupIndex, Letter, MatchNode, Pattern, PatternNode};
pub use regex::Regex;
