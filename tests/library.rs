use typed_regex::syntax::Repeater;
use typed_regex::{CompileError, GroupIndex, Letter, MatchNode, Pattern, PatternNode, Presence, Regex};

fn compiled(text: &str) -> Regex {
    Regex::compile(text).unwrap()
}

#[test]
fn consumed_length_is_prefix_length() {
    let (m, n) = compiled("AB").matches("AB").unwrap();
    assert_eq!(n, 2);
    assert_eq!(m.get_matched_string(), "AB");

    let (m, n) = compiled("AB").matches("ABCCC").unwrap();
    assert_eq!(n, 2);
    assert_eq!(m.get_matched_string(), "AB");

    let (m, n) = compiled("A(BC)[AB]").matches("ABCBAAA").unwrap();
    assert_eq!(n, 4);
    assert_eq!(m.get_matched_string(), "ABCB");
}

#[test]
fn literal_needs_input_left() {
    assert!(compiled("AB").matches("A").is_err());
    assert!(compiled("A").matches("").is_err());
}

#[test]
fn empty_pattern_matches_nothing_consumed() {
    let (m, n) = compiled("").matches("ABC").unwrap();
    assert_eq!(n, 0);
    assert_eq!(m.get_matched_string(), "");
    assert!(matches!(m, MatchNode::Nil));
}

#[test]
fn concatenation_adds_lengths() {
    let (m, n) = compiled("A(BC)").matches("ABCA").unwrap();
    assert_eq!(n, 3);
    match m {
        MatchNode::Cons(h, t) => {
            assert_eq!(h.get_matched_string(), "A");
            assert_eq!(t.get_matched_string(), "BC");
        },
        _ => panic!("a concatenation gives a Cons"),
    }
}

#[test]
fn alternation_takes_left_then_right() {
    let pattern = compiled("[AB]");
    let (m, _) = pattern.matches("A").unwrap();
    match m {
        MatchNode::Cons(h, _) => assert!(matches!(*h, MatchNode::Left(_))),
        _ => panic!("expected a Cons"),
    }
    let (m, _) = pattern.matches("B").unwrap();
    match m {
        MatchNode::Cons(h, _) => assert!(matches!(*h, MatchNode::Right(_))),
        _ => panic!("expected a Cons"),
    }
    assert!(pattern.matches("C").is_err());
}

#[test]
fn alternation_commits_to_left() {
    // The left branch matches, so the right one is never tried even though the
    // A that follows then fails.
    let pattern = compiled("[(A)(AB)]A");
    assert!(pattern.matches("ABA").is_err());
    assert_eq!(pattern.matches("AA").unwrap().1, 2);
}

#[test]
fn groups_in_opening_order() {
    let pattern = compiled("((A)B)");
    match &pattern.node {
        PatternNode::Cons(h, _) => match &**h {
            PatternNode::Group(g, inner) => {
                assert_eq!(*g, GroupIndex::One);
                match &**inner {
                    PatternNode::Cons(h2, _) => {
                        assert!(matches!(**h2, PatternNode::Group(GroupIndex::Two, _)))
                    },
                    _ => panic!("expected a Cons"),
                }
            },
            _ => panic!("expected a group"),
        },
        _ => panic!("expected a Cons"),
    }
    let m = pattern.compile_match("AB").unwrap();
    assert_eq!(m.find_group_1().get_matched_string(), "AB");
}

#[test]
fn second_group_value() {
    let m = compiled("A(BC)(A)").compile_match("ABCA").unwrap();
    match m {
        MatchNode::Cons(_, t) => match *t {
            MatchNode::Cons(_, t2) => match *t2 {
                MatchNode::Cons(g2, _) => match *g2 {
                    MatchNode::Group(GroupIndex::Two, x) => {
                        assert_eq!(x.get_matched_string(), "A")
                    },
                    _ => panic!("expected group 2"),
                },
                _ => panic!("expected a Cons"),
            },
            _ => panic!("expected a Cons"),
        },
        _ => panic!("expected a Cons"),
    }
}

#[test]
fn classification() {
    assert_eq!(compiled("A(BC)(A)").group_1_presence(), Presence::Always);
    assert_eq!(compiled("A[(BBB)(CCC)]A").group_1_presence(), Presence::Conditional);
    assert_eq!(compiled("A([BC][BC])A").group_1_presence(), Presence::Always);
    assert_eq!(compiled("ABC").group_1_presence(), Presence::Absent);
    assert_eq!(compiled("[AB](C)").group_1_presence(), Presence::Always);
}

#[test]
fn always_present_group_is_found() {
    let pattern = compiled("[AB](C)");
    for input in ["AC", "BC"] {
        let m = pattern.compile_match(input).unwrap();
        assert_eq!(m.find_group_1().get_matched_string(), "C");
    }
}

#[test]
fn conditional_group_found_or_absent() {
    let pattern = compiled("A[(BBB)(CCC)]A");
    let m = pattern.compile_match("ABBBA").unwrap();
    assert_eq!(m.maybe_find_group_1().unwrap().get_matched_string(), "BBB");
    let m = pattern.compile_match("ACCCA").unwrap();
    assert!(m.maybe_find_group_1().is_none());
}

#[test]
fn compile_errors() {
    assert_eq!(Regex::compile("(A").unwrap_err(), CompileError::Unbalanced);
    assert_eq!(Regex::compile("A)").unwrap_err(), CompileError::Unbalanced);
    assert_eq!(Regex::compile("[A").unwrap_err(), CompileError::Unbalanced);
    assert_eq!(Regex::compile("A]").unwrap_err(), CompileError::Unbalanced);
    assert_eq!(Regex::compile("(A]").unwrap_err(), CompileError::Interleaved);
    assert_eq!(Regex::compile("[A)").unwrap_err(), CompileError::Interleaved);
    assert_eq!(Regex::compile("(A)(B)(C)(A)").unwrap_err(), CompileError::TooManyGroups);
    assert_eq!(Regex::compile("AD").unwrap_err(), CompileError::UnrecognizedCharacter);
    assert_eq!(Regex::compile("[]").unwrap_err(), CompileError::EmptyAlternation);
}

#[test]
fn three_groups_compile() {
    let m = compiled("(A)(B)(C)").compile_match("ABC").unwrap();
    assert_eq!(m.find_group_1().get_matched_string(), "A");
}

#[test]
fn alternation_chains_to_the_right() {
    let pattern = compiled("[ABC]");
    match &pattern.node {
        PatternNode::Cons(h, _) => match &**h {
            PatternNode::Alternate(l, r) => {
                assert!(matches!(**l, PatternNode::Literal(Letter::A)));
                assert!(matches!(**r, PatternNode::Alternate(_, _)));
            },
            _ => panic!("expected an alternation"),
        },
        _ => panic!("expected a Cons"),
    }
    assert_eq!(pattern.compile_match("C").unwrap().get_matched_string(), "C");
}

#[test]
fn letter_chars() {
    assert_eq!(Letter::A.to_char(), 'A');
    assert_eq!(Letter::C.to_char(), 'C');
}

#[test]
fn repeater_matches_empty() {
    assert!(Repeater::ZeroOrOne.matches_empty());
    assert!(Repeater::ZeroOrMore.matches_empty());
    assert!(!Repeater::OneOrMore.matches_empty());
    assert!(Repeater::Range { min: 0, max: Some(3) }.matches_empty());
    assert!(!Repeater::Range { min: 4, max: None }.matches_empty());
}
