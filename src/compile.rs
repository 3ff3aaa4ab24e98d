//! Compiling pattern text into a `PatternNode`.
//!
//! The notation has the letters `A`, `B`, `C`, groups `( ... )` holding a
//! concatenation, and alternations `[ ... ]` holding one or more atoms, each
//! of them one alternative. Groups are numbered 1, 2, 3 in the order of their
//! opening parenthesis; a fourth group is refused.
use vstd::prelude::*;
use crate::matcher::chars_of;
use crate::pattern::{group_1_count, group_indices, GroupIndex, Letter, PatternNode};

verus! {

/// Why pattern text could not be compiled.
#[derive(Clone, Copy, Debug, PartialEq, Eq, Structural)]
pub enum CompileError {
    /// A delimiter without its partner.
    Unbalanced,
    /// A group closed by `]`, or an alternation closed by `)`.
    Interleaved,
    /// More than three groups.
    TooManyGroups,
    /// A character outside the notation.
    UnrecognizedCharacter,
    /// An alternation `[]` with no alternative.
    EmptyAlternation,
}

/// The most groups a pattern can hold.
pub const MAX_GROUPS: usize = 3;

pub open spec fn index_of(n: nat) -> GroupIndex {
    if n == 1 {
        GroupIndex::One
    } else if n == 2 {
        GroupIndex::Two
    } else {
        GroupIndex::Three
    }
}

pub open spec fn letter_of(c: char) -> Option<Letter> {
    if c == 'A' {
        Some(Letter::A)
    } else if c == 'B' {
        Some(Letter::B)
    } else if c == 'C' {
        Some(Letter::C)
    } else {
        None
    }
}

/// Parses a concatenation of `s` from `i` on, `g` groups having been opened
/// before `i`. Inside a group it stops before the closing `)`; at the top it
/// runs to the end. On success gives the tree, where it stopped, and how many
/// groups had been opened by then.
pub open spec fn parse_concat(s: Seq<char>, i: int, g: nat, in_group: bool) -> Result<
    (PatternNode, int, nat),
    CompileError,
>
    decreases s.len() - i, 2int,
{
    if i < 0 || i >= s.len() {
        if in_group {
            Err(CompileError::Unbalanced)
        } else {
            Ok((PatternNode::Nil, i, g))
        }
    } else if s[i] == ')' {
        if in_group {
            Ok((PatternNode::Nil, i, g))
        } else {
            Err(CompileError::Unbalanced)
        }
    } else if s[i] == ']' {
        if in_group {
            Err(CompileError::Interleaved)
        } else {
            Err(CompileError::Unbalanced)
        }
    } else {
        match parse_atom(s, i, g) {
            Err(e) => Err(e),
            Ok((a, j, g1)) => {
                if j <= i || j > s.len() {
                    // Never taken: an atom consumes at least one character.
                    Err(CompileError::Unbalanced)
                } else {
                    match parse_concat(s, j, g1, in_group) {
                        Err(e) => Err(e),
                        Ok((rest, k, g2)) => Ok(
                            (PatternNode::Cons(Box::new(a), Box::new(rest)), k, g2),
                        ),
                    }
                }
            },
        }
    }
}

/// Parses one atom of `s` at `i`: a letter, a group or an alternation.
pub open spec fn parse_atom(s: Seq<char>, i: int, g: nat) -> Result<
    (PatternNode, int, nat),
    CompileError,
>
    decreases s.len() - i, 0int,
{
    if i < 0 || i >= s.len() {
        Err(CompileError::Unbalanced)
    } else if letter_of(s[i]) is Some {
        Ok((PatternNode::Literal(letter_of(s[i])->0), i + 1, g))
    } else if s[i] == '(' {
        if g >= MAX_GROUPS {
            Err(CompileError::TooManyGroups)
        } else {
            match parse_concat(s, i + 1, g + 1, true) {
                Err(e) => Err(e),
                Ok((inner, j, g2)) => Ok(
                    (PatternNode::Group(index_of(g + 1), Box::new(inner)), j + 1, g2),
                ),
            }
        }
    } else if s[i] == '[' {
        match parse_alternatives(s, i + 1, g) {
            Err(e) => Err(e),
            Ok((alt, j, g2)) => Ok((alt, j + 1, g2)),
        }
    } else if s[i] == ')' || s[i] == ']' {
        // Not reached from the other two: they stop at closing delimiters.
        Err(CompileError::Unbalanced)
    } else {
        Err(CompileError::UnrecognizedCharacter)
    }
}

/// Parses the alternatives of an alternation from `i` on, stopping before the
/// closing `]`. Alternatives `a b c` chain to the right: `a | (b | c)`; a single
/// alternative stands for itself.
pub open spec fn parse_alternatives(s: Seq<char>, i: int, g: nat) -> Result<
    (PatternNode, int, nat),
    CompileError,
>
    decreases s.len() - i, 1int,
{
    if i < 0 || i >= s.len() {
        Err(CompileError::Unbalanced)
    } else if s[i] == ']' {
        Err(CompileError::EmptyAlternation)
    } else if s[i] == ')' {
        Err(CompileError::Interleaved)
    } else {
        match parse_atom(s, i, g) {
            Err(e) => Err(e),
            Ok((a, j, g1)) => {
                if j <= i || j > s.len() {
                    // Never taken: an atom consumes at least one character.
                    Err(CompileError::Unbalanced)
                } else if j < s.len() && s[j] == ']' {
                    Ok((a, j, g1))
                } else {
                    match parse_alternatives(s, j, g1) {
                        Err(e) => Err(e),
                        Ok((rest, k, g2)) => Ok(
                            (PatternNode::Alternate(Box::new(a), Box::new(rest)), k, g2),
                        ),
                    }
                }
            },
        }
    }
}

/// What compiling the pattern text `s` gives.
pub open spec fn compile_spec(s: Seq<char>) -> Result<PatternNode, CompileError> {
    match parse_concat(s, 0, 0, false) {
        Ok((p, _, _)) => Ok(p),
        Err(e) => Err(e),
    }
}

/// An executable parse result seen with mathematical positions.
pub open spec fn as_parsed(r: Result<(PatternNode, usize, usize), CompileError>) -> Result<
    (PatternNode, int, nat),
    CompileError,
> {
    match r {
        Ok((p, j, g)) => Ok((p, j as int, g as nat)),
        Err(e) => Err(e),
    }
}

fn group_index(n: usize) -> (r: GroupIndex)
    requires
        1 <= n <= 3,
    ensures
        r == index_of(n as nat),
{
    if n == 1 {
        GroupIndex::One
    } else if n == 2 {
        GroupIndex::Two
    } else {
        GroupIndex::Three
    }
}

fn letter(c: char) -> (r: Option<Letter>)
    ensures
        r == letter_of(c),
{
    if c == 'A' {
        Some(Letter::A)
    } else if c == 'B' {
        Some(Letter::B)
    } else if c == 'C' {
        Some(Letter::C)
    } else {
        None
    }
}

fn concat_at(s: &Vec<char>, i: usize, g: usize, in_group: bool) -> (r: Result<
    (PatternNode, usize, usize),
    CompileError,
>)
    requires
        i <= s@.len(),
        g <= MAX_GROUPS,
    ensures
        as_parsed(r) == parse_concat(s@, i as int, g as nat, in_group),
        r matches Ok((p, j, g2)) ==> i <= j <= s@.len() && g <= g2 <= MAX_GROUPS && (if in_group {
            j < s@.len() && s@[j as int] == ')'
        } else {
            j == s@.len()
        }),
    decreases s@.len() - i, 2int,
{
    if i >= s.len() {
        if in_group {
            Err(CompileError::Unbalanced)
        } else {
            Ok((PatternNode::Nil, i, g))
        }
    } else if s[i] == ')' {
        if in_group {
            Ok((PatternNode::Nil, i, g))
        } else {
            Err(CompileError::Unbalanced)
        }
    } else if s[i] == ']' {
        if in_group {
            Err(CompileError::Interleaved)
        } else {
            Err(CompileError::Unbalanced)
        }
    } else {
        match atom_at(s, i, g) {
            Err(e) => Err(e),
            Ok((a, j, g1)) => match concat_at(s, j, g1, in_group) {
                Err(e) => Err(e),
                Ok((rest, k, g2)) => Ok((PatternNode::Cons(Box::new(a), Box::new(rest)), k, g2)),
            },
        }
    }
}

fn atom_at(s: &Vec<char>, i: usize, g: usize) -> (r: Result<
    (PatternNode, usize, usize),
    CompileError,
>)
    requires
        i < s@.len(),
        g <= MAX_GROUPS,
    ensures
        as_parsed(r) == parse_atom(s@, i as int, g as nat),
        r matches Ok((p, j, g2)) ==> i < j <= s@.len() && g <= g2 <= MAX_GROUPS,
    decreases s@.len() - i, 0int,
{
    proof {
        assert(s@.len() == s.len());
    }
    let c = s[i];
    match letter(c) {
        Some(l) => Ok((PatternNode::Literal(l), i + 1, g)),
        None => {
            if c == '(' {
                if g >= MAX_GROUPS {
                    Err(CompileError::TooManyGroups)
                } else {
                    let index = group_index(g + 1);
                    match concat_at(s, i + 1, g + 1, true) {
                        Err(e) => Err(e),
                        Ok((inner, j, g2)) => {
                            assert(j < s@.len());
                            Ok((PatternNode::Group(index, Box::new(inner)), j + 1, g2))
                        },
                    }
                }
            } else if c == '[' {
                match alternatives_at(s, i + 1, g) {
                    Err(e) => Err(e),
                    Ok((alt, j, g2)) => Ok((alt, j + 1, g2)),
                }
            } else if c == ')' || c == ']' {
                Err(CompileError::Unbalanced)
            } else {
                Err(CompileError::UnrecognizedCharacter)
            }
        },
    }
}

fn alternatives_at(s: &Vec<char>, i: usize, g: usize) -> (r: Result<
    (PatternNode, usize, usize),
    CompileError,
>)
    requires
        i <= s@.len(),
        g <= MAX_GROUPS,
    ensures
        as_parsed(r) == parse_alternatives(s@, i as int, g as nat),
        r matches Ok((p, j, g2)) ==> i < j < s@.len() && s@[j as int] == ']' && g <= g2 <= MAX_GROUPS,
    decreases s@.len() - i, 1int,
{
    if i >= s.len() {
        Err(CompileError::Unbalanced)
    } else if s[i] == ']' {
        Err(CompileError::EmptyAlternation)
    } else if s[i] == ')' {
        Err(CompileError::Interleaved)
    } else {
        match atom_at(s, i, g) {
            Err(e) => Err(e),
            Ok((a, j, g1)) => {
                if j < s.len() && s[j] == ']' {
                    Ok((a, j, g1))
                } else {
                    match alternatives_at(s, j, g1) {
                        Err(e) => Err(e),
                        Ok((rest, k, g2)) => Ok(
                            (PatternNode::Alternate(Box::new(a), Box::new(rest)), k, g2),
                        ),
                    }
                }
            },
        }
    }
}

/// Compiles pattern text into a pattern tree.
pub fn compile_pattern(pattern: &str) -> (r: Result<PatternNode, CompileError>)
    ensures
        r == compile_spec(pattern@),
{
    let s = chars_of(pattern);
    match concat_at(&s, 0, 0, false) {
        Ok((p, _, _)) => Ok(p),
        Err(e) => Err(e),
    }
}

/// How many opening parentheses `s` holds from `lo` up to `hi`.
pub open spec fn opens(s: Seq<char>, lo: int, hi: int) -> nat
    decreases hi - lo,
{
    if lo >= hi {
        0
    } else {
        (if s[lo] == '(' {
            1nat
        } else {
            0nat
        }) + opens(s, lo + 1, hi)
    }
}

proof fn lemma_opens_split(s: Seq<char>, lo: int, mid: int, hi: int)
    requires
        lo <= mid <= hi,
    ensures
        opens(s, lo, hi) == opens(s, lo, mid) + opens(s, mid, hi),
    decreases mid - lo,
{
    if lo < mid {
        lemma_opens_split(s, lo + 1, mid, hi);
    }
}

/// The groups of a parsed piece are numbered on from the count of groups
/// opened before it, in preorder; group 1 occurs in it once if it is the piece
/// that opens the first group, and not otherwise.
proof fn lemma_concat_groups(s: Seq<char>, i: int, g: nat, in_group: bool)
    requires
        parse_concat(s, i, g, in_group) is Ok,
        0 <= i <= s.len(),
        g <= 3,
    ensures
        ({
            let (p, j, g2) = parse_concat(s, i, g, in_group)->Ok_0;
            &&& g <= g2 <= 3
            &&& i <= j <= s.len()
            &&& g2 - g == opens(s, i, j)
            &&& if in_group { j < s.len() && s[j] == ')' } else { j == s.len() }
            &&& group_indices(p) =~= Seq::new((g2 - g) as nat, |k: int| (g + 1 + k) as nat)
            &&& group_1_count(p) == (if g == 0 && g2 >= 1 { 1nat } else { 0nat })
        }),
    decreases s.len() - i, 2int,
{
    if i < 0 || i >= s.len() || s[i] == ')' || s[i] == ']' {
    } else {
        lemma_atom_groups(s, i, g);
        let (a, j, g1) = parse_atom(s, i, g)->Ok_0;
        lemma_concat_groups(s, j, g1, in_group);
        let k = (parse_concat(s, j, g1, in_group)->Ok_0).1;
        lemma_opens_split(s, i, j, k);
    }
}

proof fn lemma_atom_groups(s: Seq<char>, i: int, g: nat)
    requires
        parse_atom(s, i, g) is Ok,
        g <= 3,
    ensures
        ({
            let (p, j, g2) = parse_atom(s, i, g)->Ok_0;
            &&& g <= g2 <= 3
            &&& i < j <= s.len()
            &&& g2 - g == opens(s, i, j)
            &&& group_indices(p) =~= Seq::new((g2 - g) as nat, |k: int| (g + 1 + k) as nat)
            &&& group_1_count(p) == (if g == 0 && g2 >= 1 { 1nat } else { 0nat })
        }),
    decreases s.len() - i, 0int,
{
    if letter_of(s[i]) is Some {
        assert(opens(s, i + 1, i + 1) == 0);
    } else if s[i] == '(' {
        lemma_concat_groups(s, i + 1, g + 1, true);
        let j = (parse_concat(s, i + 1, g + 1, true)->Ok_0).1;
        lemma_opens_split(s, i + 1, j, j + 1);
        assert(opens(s, j + 1, j + 1) == 0);
    } else {
        lemma_alternatives_groups(s, i + 1, g);
        let j = (parse_alternatives(s, i + 1, g)->Ok_0).1;
        lemma_opens_split(s, i + 1, j, j + 1);
        assert(opens(s, j + 1, j + 1) == 0);
    }
}

proof fn lemma_alternatives_groups(s: Seq<char>, i: int, g: nat)
    requires
        parse_alternatives(s, i, g) is Ok,
        g <= 3,
    ensures
        ({
            let (p, j, g2) = parse_alternatives(s, i, g)->Ok_0;
            &&& g <= g2 <= 3
            &&& i < j < s.len()
            &&& s[j] == ']'
            &&& g2 - g == opens(s, i, j)
            &&& group_indices(p) =~= Seq::new((g2 - g) as nat, |k: int| (g + 1 + k) as nat)
            &&& group_1_count(p) == (if g == 0 && g2 >= 1 { 1nat } else { 0nat })
        }),
    decreases s.len() - i, 1int,
{
    lemma_atom_groups(s, i, g);
    let (a, j, g1) = parse_atom(s, i, g)->Ok_0;
    if j < s.len() && s[j] == ']' {
    } else {
        lemma_alternatives_groups(s, j, g1);
        let k = (parse_alternatives(s, j, g1)->Ok_0).1;
        lemma_opens_split(s, i, j, k);
    }
}

/// Groups are numbered by the order of their opening parenthesis: a compiled
/// pattern has one group for each `(` of its text, and listed in preorder
/// (which is the order of their opening parentheses) they carry 1, 2, ... in
/// turn, so the leftmost group is group 1 however deep it is nested; and at
/// most one group carries index 1.
pub proof fn lemma_groups_numbered_in_opening_order(s: Seq<char>)
    requires
        compile_spec(s) is Ok,
    ensures
        ({
            let p = compile_spec(s)->Ok_0;
            let n = group_indices(p).len();
            &&& n == opens(s, 0, s.len() as int)
            &&& n <= 3
            &&& forall|k: int| 0 <= k < n ==> group_indices(p)[k] == k + 1
            &&& group_1_count(p) <= 1
        }),
{
    lemma_concat_groups(s, 0, 0, false);
}

} // verus!
