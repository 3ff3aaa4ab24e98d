//! The compiled pattern tree and the match tree that mirrors it.
use vstd::prelude::*;
use vstd::string::StringExecFns;

verus! {

/// One of the letters that a pattern can match literally.
#[derive(Clone, Copy, Debug, PartialEq, Eq, Structural)]
pub enum Letter {
    A,
    B,
    C,
}

impl Letter {
    pub open spec fn spec_char(self) -> char {
        match self {
            Letter::A => 'A',
            Letter::B => 'B',
            Letter::C => 'C',
        }
    }

    pub fn to_char(&self) -> (c: char)
        ensures
            c == self.spec_char(),
    {
        match self {
            Letter::A => 'A',
            Letter::B => 'B',
            Letter::C => 'C',
        }
    }
}

/// The index of a capturing group; groups are numbered from 1 in the order of
/// their opening parenthesis.
#[derive(Clone, Copy, Debug, PartialEq, Eq, Structural)]
pub enum GroupIndex {
    One,
    Two,
    Three,
}

impl GroupIndex {
    pub open spec fn value(self) -> nat {
        match self {
            GroupIndex::One => 1,
            GroupIndex::Two => 2,
            GroupIndex::Three => 3,
        }
    }
}

/// A compiled pattern. A concatenation is a list built from `Cons` cells and
/// ended by `Nil`; an alternation is a binary choice that prefers its left side.
#[derive(Debug)]
pub enum PatternNode {
    Literal(Letter),
    Nil,
    Cons(Box<PatternNode>, Box<PatternNode>),
    Alternate(Box<PatternNode>, Box<PatternNode>),
    Group(GroupIndex, Box<PatternNode>),
}

/// The record of a successful match. Its shape mirrors the pattern that
/// produced it; of an alternation only the branch that was taken is kept.
#[derive(Debug)]
pub enum MatchNode {
    Literal(Letter),
    Nil,
    Cons(Box<MatchNode>, Box<MatchNode>),
    Left(Box<MatchNode>),
    Right(Box<MatchNode>),
    Group(GroupIndex, Box<MatchNode>),
}

/// The text that a match tree stands for: its literals, left to right.
pub open spec fn matched(m: MatchNode) -> Seq<char>
    decreases m,
{
    match m {
        MatchNode::Literal(c) => seq![c.spec_char()],
        MatchNode::Nil => Seq::empty(),
        MatchNode::Cons(h, t) => matched(*h) + matched(*t),
        MatchNode::Left(x) => matched(*x),
        MatchNode::Right(x) => matched(*x),
        MatchNode::Group(_, x) => matched(*x),
    }
}

/// The indices of the groups of `p`, in preorder: a group comes before the
/// groups nested in it, and those before the groups that follow it.
pub open spec fn group_indices(p: PatternNode) -> Seq<nat>
    decreases p,
{
    match p {
        PatternNode::Literal(_) => Seq::empty(),
        PatternNode::Nil => Seq::empty(),
        PatternNode::Cons(h, t) => group_indices(*h) + group_indices(*t),
        PatternNode::Alternate(l, r) => group_indices(*l) + group_indices(*r),
        PatternNode::Group(g, inner) => seq![g.value()] + group_indices(*inner),
    }
}

/// How many groups of `p` carry index 1.
pub open spec fn group_1_count(p: PatternNode) -> nat
    decreases p,
{
    match p {
        PatternNode::Literal(_) => 0,
        PatternNode::Nil => 0,
        PatternNode::Cons(h, t) => group_1_count(*h) + group_1_count(*t),
        PatternNode::Alternate(l, r) => group_1_count(*l) + group_1_count(*r),
        PatternNode::Group(g, inner) => (if g == GroupIndex::One {
            1nat
        } else {
            0nat
        }) + group_1_count(*inner),
    }
}

/// A value that stands for a piece of matched text.
pub trait Pattern {
    spec fn matched_text(&self) -> Seq<char>;

    fn get_matched_string(&self) -> (r: String)
        ensures
            r@ == self.matched_text(),
    ;
}

impl Pattern for MatchNode {
    open spec fn matched_text(&self) -> Seq<char> {
        matched(*self)
    }

    fn get_matched_string(&self) -> (r: String)
        decreases self,
    {
        match self {
            MatchNode::Literal(c) => {
                let r = match c {
                    Letter::A => String::from_str("A"),
                    Letter::B => String::from_str("B"),
                    Letter::C => String::from_str("C"),
                };
                proof {
                    reveal_strlit("A");
                    reveal_strlit("B");
                    reveal_strlit("C");
                    assert(r@ =~= seq![c.spec_char()]);
                }
                r
            },
            MatchNode::Nil => {
                let r = String::new();
                assert(r@ =~= Seq::<char>::empty());
                r
            },
            MatchNode::Cons(h, t) => {
                let mut r = h.get_matched_string();
                let rest = t.get_matched_string();
                r.append(rest.as_str());
                r
            },
            MatchNode::Left(x) => x.get_matched_string(),
            MatchNode::Right(x) => x.get_matched_string(),
            MatchNode::Group(_, x) => x.get_matched_string(),
        }
    }
}

} // verus!
