//! A compiled pattern together with its group-1 classification.
use vstd::prelude::*;
use crate::capture::{classify, presence, Presence};
use crate::compile::{compile_pattern, compile_spec, CompileError};
use crate::matcher::match_spec;
use crate::pattern::{matched, MatchNode, PatternNode};

verus! {

/// A compiled pattern. `presence` is its classification, worked out once when
/// it is compiled.
#[derive(Debug)]
pub struct Regex {
    pub node: PatternNode,
    pub presence: Presence,
}

impl Regex {
    pub open spec fn wf(&self) -> bool {
        self.presence == presence(self.node)
    }

    /// Compiles `pattern` and classifies it.
    pub fn compile(pattern: &str) -> (r: Result<Regex, CompileError>)
        ensures
            match r {
                Ok(re) => compile_spec(pattern@) == Ok::<PatternNode, CompileError>(re.node)
                    && re.wf(),
                Err(e) => compile_spec(pattern@) == Err::<PatternNode, CompileError>(e),
            },
    {
        match compile_pattern(pattern) {
            Ok(node) => {
                let presence = classify(&node);
                Ok(Regex { node, presence })
            },
            Err(e) => Err(e),
        }
    }

    /// Matches the pattern against a prefix of `input`, giving the match tree
    /// and the number of characters consumed.
    pub fn matches(&self, input: &str) -> (r: Result<(MatchNode, usize), ()>)
        ensures
            match r {
                Ok((m, n)) => match_spec(self.node, input@) == Some((m, n as nat))
                    && n <= input@.len() && matched(m) == input@.take(n as int),
                Err(()) => match_spec(self.node, input@) is None,
            },
    {
        self.node.matches(input)
    }

    /// Matches the pattern against a prefix of `input`, giving the match tree.
    pub fn compile_match(&self, input: &str) -> (r: Result<MatchNode, ()>)
        ensures
            match r {
                Ok(m) => match_spec(self.node, input@) is Some && (match_spec(
                    self.node,
                    input@,
                )->0).0 == m,
                Err(()) => match_spec(self.node, input@) is None,
            },
    {
        match self.node.matches(input) {
            Ok((m, _)) => Ok(m),
            Err(()) => Err(()),
        }
    }

    /// Whether group 1 shows up in every match, in some, or in none.
    pub fn group_1_presence(&self) -> (r: Presence)
        ensures
            r == self.presence,
    {
        self.presence
    }
}

} // verus!
