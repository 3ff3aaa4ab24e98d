//! Where capture group 1 stands: the static classification of a pattern, and
//! the search for group 1 in a match tree.
use vstd::prelude::*;
use crate::compile::{compile_spec, lemma_groups_numbered_in_opening_order};
use crate::matcher::match_spec;
use crate::pattern::{group_1_count, GroupIndex, MatchNode, PatternNode};

verus! {

/// Whether group 1 shows up in the matches of a pattern.
#[derive(Clone, Copy, Debug, PartialEq, Eq, Structural)]
pub enum Presence {
    /// Every match holds group 1.
    Always,
    /// Group 1 stands in a branch of an alternation, so only the matches that
    /// take that branch hold it.
    Conditional,
    /// The pattern has no group 1.
    Absent,
}

/// Group 1 is in a sequence when it is in any of its parts.
pub open spec fn either_part(a: Presence, b: Presence) -> Presence {
    if a == Presence::Always || b == Presence::Always {
        Presence::Always
    } else if a == Presence::Conditional || b == Presence::Conditional {
        Presence::Conditional
    } else {
        Presence::Absent
    }
}

/// Group 1 is surely in an alternation only when both branches surely hold it.
pub open spec fn both_branches(a: Presence, b: Presence) -> Presence {
    if a == Presence::Always && b == Presence::Always {
        Presence::Always
    } else if a == Presence::Absent && b == Presence::Absent {
        Presence::Absent
    } else {
        Presence::Conditional
    }
}

/// The classification of `p`, from its shape alone.
pub open spec fn presence(p: PatternNode) -> Presence
    decreases p,
{
    match p {
        PatternNode::Literal(_) => Presence::Absent,
        PatternNode::Nil => Presence::Absent,
        PatternNode::Cons(h, t) => either_part(presence(*h), presence(*t)),
        PatternNode::Alternate(l, r) => both_branches(presence(*l), presence(*r)),
        PatternNode::Group(g, inner) => if g == GroupIndex::One {
            Presence::Always
        } else {
            presence(*inner)
        },
    }
}

/// What a search for group 1 in `m` finds: the match of the group's contents.
/// A concatenation is searched part by part, and of an alternation only the
/// branch that was taken.
pub open spec fn group_1(m: MatchNode) -> Option<MatchNode>
    decreases m,
{
    match m {
        MatchNode::Literal(_) => None,
        MatchNode::Nil => None,
        MatchNode::Cons(h, t) => if group_1(*h) is Some {
            group_1(*h)
        } else {
            group_1(*t)
        },
        MatchNode::Left(x) => group_1(*x),
        MatchNode::Right(x) => group_1(*x),
        MatchNode::Group(g, x) => if g == GroupIndex::One {
            Some(*x)
        } else {
            group_1(*x)
        },
    }
}

/// Every node of `m` tagged with group 1, as the match of its contents, in
/// preorder.
pub open spec fn group_1_nodes(m: MatchNode) -> Seq<MatchNode>
    decreases m,
{
    match m {
        MatchNode::Literal(_) => Seq::empty(),
        MatchNode::Nil => Seq::empty(),
        MatchNode::Cons(h, t) => group_1_nodes(*h) + group_1_nodes(*t),
        MatchNode::Left(x) => group_1_nodes(*x),
        MatchNode::Right(x) => group_1_nodes(*x),
        MatchNode::Group(g, x) => if g == GroupIndex::One {
            seq![*x] + group_1_nodes(*x)
        } else {
            group_1_nodes(*x)
        },
    }
}

/// Classifies `p`: whether group 1 is in every match of it, in some, or in none.
pub fn classify(p: &PatternNode) -> (r: Presence)
    ensures
        r == presence(*p),
    decreases p,
{
    match p {
        PatternNode::Literal(_) => Presence::Absent,
        PatternNode::Nil => Presence::Absent,
        PatternNode::Cons(h, t) => {
            let a = classify(h);
            let b = classify(t);
            if a == Presence::Always || b == Presence::Always {
                Presence::Always
            } else if a == Presence::Conditional || b == Presence::Conditional {
                Presence::Conditional
            } else {
                Presence::Absent
            }
        },
        PatternNode::Alternate(l, r) => {
            let a = classify(l);
            let b = classify(r);
            if a == Presence::Always && b == Presence::Always {
                Presence::Always
            } else if a == Presence::Absent && b == Presence::Absent {
                Presence::Absent
            } else {
                Presence::Conditional
            }
        },
        PatternNode::Group(g, inner) => match g {
            GroupIndex::One => Presence::Always,
            _ => classify(inner),
        },
    }
}

impl MatchNode {
    /// The match of group 1's contents, where the match took a way through
    /// group 1; `None` where it did not.
    pub fn maybe_find_group_1(&self) -> (r: Option<&MatchNode>)
        ensures
            match r {
                Some(x) => group_1(*self) == Some(*x),
                None => group_1(*self) is None,
            },
        decreases self,
    {
        match self {
            MatchNode::Literal(_) => None,
            MatchNode::Nil => None,
            MatchNode::Cons(h, t) => match h.maybe_find_group_1() {
                Some(x) => Some(x),
                None => t.maybe_find_group_1(),
            },
            MatchNode::Left(x) => x.maybe_find_group_1(),
            MatchNode::Right(x) => x.maybe_find_group_1(),
            MatchNode::Group(g, x) => match g {
                GroupIndex::One => Some(&**x),
                _ => x.maybe_find_group_1(),
            },
        }
    }

    /// The match of group 1's contents, in a match that surely holds group 1:
    /// see `lemma_always_present_is_found`.
    pub fn find_group_1(&self) -> (r: &MatchNode)
        requires
            group_1(*self) is Some,
        ensures
            group_1(*self) == Some(*r),
        decreases self,
    {
        match self {
            MatchNode::Cons(h, t) => match h.maybe_find_group_1() {
                Some(x) => x,
                None => t.find_group_1(),
            },
            MatchNode::Left(x) => x.find_group_1(),
            MatchNode::Right(x) => x.find_group_1(),
            MatchNode::Group(g, x) => match g {
                GroupIndex::One => &**x,
                _ => x.find_group_1(),
            },
            // A literal or an empty match holds no group 1, which `requires` rules out.
            _ => self,
        }
    }
}

/// Soundness of the "always" classification: every match of a pattern so
/// classified holds group 1, so `find_group_1` may be called on it.
pub proof fn lemma_always_present_is_found(p: PatternNode, s: Seq<char>)
    requires
        presence(p) == Presence::Always,
        match_spec(p, s) is Some,
    ensures
        group_1((match_spec(p, s)->0).0) is Some,
    decreases p,
{
    match p {
        PatternNode::Cons(h, t) => {
            let (mh, i) = match_spec(*h, s)->0;
            if presence(*h) == Presence::Always {
                lemma_always_present_is_found(*h, s);
            } else {
                lemma_always_present_is_found(*t, s.skip(i as int));
            }
        },
        PatternNode::Alternate(l, r) => {
            if match_spec(*l, s) is Some {
                lemma_always_present_is_found(*l, s);
            } else {
                lemma_always_present_is_found(*r, s);
            }
        },
        PatternNode::Group(g, inner) => {
            if g != GroupIndex::One {
                lemma_always_present_is_found(*inner, s);
            }
        },
        _ => {},
    }
}

/// The search finds the first group-1 node of a match tree, if there is one.
proof fn lemma_group_1_is_first_node(m: MatchNode)
    ensures
        group_1(m) == (if group_1_nodes(m).len() > 0 {
            Some(group_1_nodes(m)[0])
        } else {
            None
        }),
    decreases m,
{
    match m {
        MatchNode::Cons(h, t) => {
            lemma_group_1_is_first_node(*h);
            lemma_group_1_is_first_node(*t);
            if group_1_nodes(*h).len() > 0 {
                assert((group_1_nodes(*h) + group_1_nodes(*t))[0] == group_1_nodes(*h)[0]);
            } else {
                assert(group_1_nodes(*h) + group_1_nodes(*t) =~= group_1_nodes(*t));
            }
        },
        MatchNode::Left(x) => lemma_group_1_is_first_node(*x),
        MatchNode::Right(x) => lemma_group_1_is_first_node(*x),
        MatchNode::Group(g, x) => lemma_group_1_is_first_node(*x),
        _ => {},
    }
}

/// A match holds no more group-1 nodes than its pattern has.
proof fn lemma_group_1_nodes_bounded(p: PatternNode, s: Seq<char>)
    requires
        match_spec(p, s) is Some,
    ensures
        group_1_nodes((match_spec(p, s)->0).0).len() <= group_1_count(p),
    decreases p,
{
    match p {
        PatternNode::Cons(h, t) => {
            let (mh, i) = match_spec(*h, s)->0;
            lemma_group_1_nodes_bounded(*h, s);
            lemma_group_1_nodes_bounded(*t, s.skip(i as int));
        },
        PatternNode::Alternate(l, r) => {
            if match_spec(*l, s) is Some {
                lemma_group_1_nodes_bounded(*l, s);
            } else {
                lemma_group_1_nodes_bounded(*r, s);
            }
        },
        PatternNode::Group(g, inner) => lemma_group_1_nodes_bounded(*inner, s),
        _ => {},
    }
}

/// Soundness of the "conditional" classification: for a compiled pattern so
/// classified, the search for group 1 in a match gives the one group-1 node of
/// the match tree where the match took the branch that holds it, and nothing
/// where it did not.
pub proof fn lemma_conditional_presence_is_exact(text: Seq<char>, input: Seq<char>)
    requires
        compile_spec(text) is Ok,
        presence(compile_spec(text)->Ok_0) == Presence::Conditional,
        match_spec(compile_spec(text)->Ok_0, input) is Some,
    ensures
        ({
            let m = (match_spec(compile_spec(text)->Ok_0, input)->0).0;
            &&& group_1(m) is None <==> group_1_nodes(m).len() == 0
            &&& group_1(m) is Some ==> group_1_nodes(m) == seq![group_1(m)->0]
        }),
{
    let p = compile_spec(text)->Ok_0;
    let m = (match_spec(p, input)->0).0;
    lemma_groups_numbered_in_opening_order(text);
    lemma_group_1_nodes_bounded(p, input);
    lemma_group_1_is_first_node(m);
    if group_1(m) is Some {
        assert(group_1_nodes(m) =~= seq![group_1(m)->0]);
    }
}

} // verus!
