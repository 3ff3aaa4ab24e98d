//! Matching a compiled pattern against a prefix of an input.
use vstd::prelude::*;
use vstd::string::StrSliceExecFns;
use crate::pattern::{matched, Letter, MatchNode, PatternNode};

verus! {

/// What matching `p` against the start of `s` yields: the match tree and the
/// number of characters consumed, or `None` when there is no match.
/// Concatenation never revisits an earlier element, and alternation commits
/// to its left side whenever that side matches.
pub open spec fn match_spec(p: PatternNode, s: Seq<char>) -> Option<(MatchNode, nat)>
    decreases p,
{
    match p {
        PatternNode::Literal(c) => {
            if s.len() > 0 && s[0] == c.spec_char() {
                Some((MatchNode::Literal(c), 1))
            } else {
                None
            }
        },
        PatternNode::Nil => Some((MatchNode::Nil, 0)),
        PatternNode::Cons(h, t) => match match_spec(*h, s) {
            Some((mh, i)) => match match_spec(*t, s.skip(i as int)) {
                Some((mt, j)) => Some((MatchNode::Cons(Box::new(mh), Box::new(mt)), i + j)),
                None => None,
            },
            None => None,
        },
        PatternNode::Alternate(l, r) => match match_spec(*l, s) {
            Some((ml, i)) => Some((MatchNode::Left(Box::new(ml)), i)),
            None => match match_spec(*r, s) {
                Some((mr, j)) => Some((MatchNode::Right(Box::new(mr)), j)),
                None => None,
            },
        },
        PatternNode::Group(g, inner) => match match_spec(*inner, s) {
            Some((mi, i)) => Some((MatchNode::Group(g, Box::new(mi)), i)),
            None => None,
        },
    }
}

/// A successful match consumes a prefix of the input, and the matched text is
/// exactly that prefix.
pub proof fn lemma_match_is_prefix(p: PatternNode, s: Seq<char>)
    requires
        match_spec(p, s) is Some,
    ensures
        ({
            let (m, n) = match_spec(p, s)->0;
            &&& n <= s.len()
            &&& matched(m) == s.take(n as int)
        }),
    decreases p,
{
    match p {
        PatternNode::Literal(c) => {
            assert(s.take(1) =~= seq![c.spec_char()]);
        },
        PatternNode::Nil => {
            assert(s.take(0) =~= Seq::<char>::empty());
        },
        PatternNode::Cons(h, t) => {
            lemma_match_is_prefix(*h, s);
            let (mh, i) = match_spec(*h, s)->0;
            lemma_match_is_prefix(*t, s.skip(i as int));
            let (mt, j) = match_spec(*t, s.skip(i as int))->0;
            assert(s.take((i + j) as int) =~= s.take(i as int) + s.skip(i as int).take(j as int));
        },
        PatternNode::Alternate(l, r) => {
            if match_spec(*l, s) is Some {
                lemma_match_is_prefix(*l, s);
            } else {
                lemma_match_is_prefix(*r, s);
            }
        },
        PatternNode::Group(_, inner) => {
            lemma_match_is_prefix(*inner, s);
        },
    }
}

/// The length that a concatenation consumes is the sum of what its first
/// element and the rest of it consume, the rest being matched where the first
/// element stopped.
pub proof fn lemma_concat_length_additive(head: PatternNode, tail: PatternNode, s: Seq<char>)
    requires
        match_spec(PatternNode::Cons(Box::new(head), Box::new(tail)), s) is Some,
    ensures
        ({
            let (m, n) = match_spec(PatternNode::Cons(Box::new(head), Box::new(tail)), s)->0;
            let (mh, i) = match_spec(head, s)->0;
            let (mt, j) = match_spec(tail, s.skip(i as int))->0;
            &&& match_spec(head, s) is Some
            &&& match_spec(tail, s.skip(i as int)) is Some
            &&& n == i + j
            &&& m == MatchNode::Cons(Box::new(mh), Box::new(mt))
        }),
{
}

/// An alternation that matches yields what its left side alone yields where
/// that side matches, and otherwise what its right side alone yields.
pub proof fn lemma_alternation_commits(left: PatternNode, right: PatternNode, s: Seq<char>)
    requires
        match_spec(PatternNode::Alternate(Box::new(left), Box::new(right)), s) is Some,
    ensures
        ({
            let (m, n) = match_spec(PatternNode::Alternate(Box::new(left), Box::new(right)), s)->0;
            if match_spec(left, s) is Some {
                let (ml, i) = match_spec(left, s)->0;
                &&& m == MatchNode::Left(Box::new(ml))
                &&& n == i
                &&& matched(m) == matched(ml)
            } else {
                let (mr, j) = match_spec(right, s)->0;
                &&& match_spec(right, s) is Some
                &&& m == MatchNode::Right(Box::new(mr))
                &&& n == j
                &&& matched(m) == matched(mr)
            }
        }),
{
}

/// Matches `p` against `s` from position `pos` on.
fn match_at(p: &PatternNode, s: &Vec<char>, pos: usize) -> (r: Option<(MatchNode, usize)>)
    requires
        pos <= s@.len(),
    ensures
        match r {
            Some((m, n)) => match_spec(*p, s@.skip(pos as int)) == Some((m, n as nat))
                && pos + n <= s@.len(),
            None => match_spec(*p, s@.skip(pos as int)) is None,
        },
    decreases p,
{
    match p {
        PatternNode::Literal(c) => {
            if pos < s.len() && s[pos] == c.to_char() {
                Some((MatchNode::Literal(*c), 1))
            } else {
                None
            }
        },
        PatternNode::Nil => Some((MatchNode::Nil, 0)),
        PatternNode::Cons(h, t) => {
            match match_at(h, s, pos) {
                Some((mh, i)) => {
                    proof {
                        assert(s@.len() == s.len());
                        assert(s@.skip(pos as int).skip(i as int) =~= s@.skip((pos + i) as int));
                    }
                    match match_at(t, s, pos + i) {
                        Some((mt, j)) => Some((MatchNode::Cons(Box::new(mh), Box::new(mt)), i + j)),
                        None => None,
                    }
                },
                None => None,
            }
        },
        PatternNode::Alternate(l, r) => {
            match match_at(l, s, pos) {
                Some((ml, i)) => Some((MatchNode::Left(Box::new(ml)), i)),
                None => match match_at(r, s, pos) {
                    Some((mr, j)) => Some((MatchNode::Right(Box::new(mr)), j)),
                    None => None,
                },
            }
        },
        PatternNode::Group(g, inner) => {
            match match_at(inner, s, pos) {
                Some((mi, i)) => Some((MatchNode::Group(*g, Box::new(mi)), i)),
                None => None,
            }
        },
    }
}

/// The characters of `s`, in order.
pub fn chars_of(s: &str) -> (r: Vec<char>)
    ensures
        r@ == s@,
{
    let n = s.unicode_len();
    let mut r: Vec<char> = Vec::new();
    let mut i: usize = 0;
    while i < n
        invariant
            n == s@.len(),
            i <= n,
            r@ == s@.take(i as int),
        decreases n - i,
    {
        r.push(s.get_char(i));
        i = i + 1;
        assert(r@ =~= s@.take(i as int));
    }
    assert(r@ =~= s@);
    r
}

impl PatternNode {
    /// Matches this pattern against a prefix of `input`; on success returns the
    /// match tree and how many characters it consumed. Trailing input is left
    /// alone.
    pub fn matches(&self, input: &str) -> (r: Result<(MatchNode, usize), ()>)
        ensures
            match r {
                Ok((m, n)) => match_spec(*self, input@) == Some((m, n as nat))
                    && n <= input@.len() && matched(m) == input@.take(n as int),
                Err(()) => match_spec(*self, input@) is None,
            },
    {
        let s = chars_of(input);
        assert(s@.skip(0) =~= s@);
        match match_at(self, &s, 0) {
            Some((m, n)) => {
                proof {
                    lemma_match_is_prefix(*self, input@);
                }
                Ok((m, n))
            },
            None => Err(()),
        }
    }
}

} // verus!
