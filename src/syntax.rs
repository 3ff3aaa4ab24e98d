//! A wider vocabulary of expression nodes, written as types: each `Expr`
//! type describes a kind of expression, and a value of it describes the text
//! that matched. The matcher does not use it; it is declared for patterns
//! that need anchors, repetition and classes.
use vstd::prelude::*;
use std::marker::PhantomData;

verus! {

/// A context, such as a repetition range or a group's name, carried by a type
/// of its own so that it is known statically.
pub trait Static<T> {
    fn get() -> T;
}

/// The end of an array-like chain of types.
#[derive(Debug)]
pub struct End;

/// An expression node.
pub trait Expr {
}

/// The empty expression, which matches no text.
#[derive(Debug)]
pub struct Empty;

impl Expr for Empty {
}

/// One or more literal characters, compared case-sensitively.
#[derive(Debug)]
pub struct CaseSensitiveLiteral<T: LiteralChar, U: LiteralCharArray> {
    pub this: T,
    pub next: U,
}

impl<T: LiteralChar, U: LiteralCharArray> Expr for CaseSensitiveLiteral<T, U> {
}

/// A type that stands for one literal character.
pub trait LiteralChar {
}

/// A chain of literal characters.
pub trait LiteralCharArray {
}

impl<T: LiteralChar, U: LiteralCharArray> LiteralCharArray for CaseSensitiveLiteral<T, U> {
}

impl LiteralCharArray for End {
}

/// Any character.
#[derive(Debug)]
pub struct AnyChar(pub char);

impl Expr for AnyChar {
}

/// Any character but a newline.
#[derive(Debug)]
pub struct AnyCharNoNL(pub char);

impl Expr for AnyCharNoNL {
}

/// The start of a line, or of the input.
#[derive(Debug)]
pub struct StartLine;

impl Expr for StartLine {
}

/// The end of a line, or of the input.
#[derive(Debug)]
pub struct EndLine;

impl Expr for EndLine {
}

/// The start of the input.
#[derive(Debug)]
pub struct StartText;

impl Expr for StartText {
}

/// The end of the input.
#[derive(Debug)]
pub struct EndText;

impl Expr for EndText {
}

/// A place between a word character and a non-word character.
#[derive(Debug)]
pub struct WordBoundary;

impl Expr for WordBoundary {
}

/// A place with word characters on both sides, or non-word characters on both.
#[derive(Debug)]
pub struct NotWordBoundary;

impl Expr for NotWordBoundary {
}

/// A group, capturing or not; `C` gives its name and index.
#[derive(Debug)]
pub struct Group<T: Expr, C: Static<GroupContext>> {
    pub e: T,
    pub _phantoms: PhantomData<C>,
}

impl<T: Expr, C: Static<GroupContext>> Expr for Group<T, C> {
}

/// The name and capture index of a group.
#[derive(Debug)]
pub struct GroupContext {
    pub name: Option<String>,
    pub index: Option<u16>,
}

/// A repeated expression; `R` gives how often, `C` whether greedily.
#[derive(Debug)]
pub struct Repeat<T: Expr, R: Static<Repeater>, C: Static<RepeatContext>> {
    pub e: T,
    pub _phantoms: PhantomData<(R, C)>,
}

impl<T: Expr, R: Static<Repeater>, C: Static<RepeatContext>> Expr for Repeat<T, R, C> {
}

/// Whether a repetition is greedy.
#[derive(Debug)]
pub struct RepeatContext {
    pub greedy: bool,
}

/// How often a repeated expression may occur.
#[derive(Clone, Copy, Debug, PartialEq, Eq, Structural)]
pub enum Repeater {
    /// `?`
    ZeroOrOne,
    /// `*`
    ZeroOrMore,
    /// `+`
    OneOrMore,
    /// `{min,max}`; no `max` means no upper bound.
    Range { min: u32, max: Option<u32> },
}

impl Repeater {
    /// The fewest occurrences that the repetition allows.
    pub open spec fn least(self) -> nat {
        match self {
            Repeater::ZeroOrOne => 0,
            Repeater::ZeroOrMore => 0,
            Repeater::OneOrMore => 1,
            Repeater::Range { min, .. } => min as nat,
        }
    }

    /// Whether the repetition can match the empty string.
    pub fn matches_empty(&self) -> (r: bool)
        ensures
            r == (self.least() == 0),
    {
        match *self {
            Repeater::ZeroOrOne => true,
            Repeater::ZeroOrMore => true,
            Repeater::OneOrMore => false,
            Repeater::Range { min, .. } => min == 0,
        }
    }
}

/// A concatenation: `this`, then `next`.
#[derive(Debug)]
pub struct Concat<T: Expr, U: ExprArray> {
    pub this: T,
    pub next: U,
}

/// A chain of expressions to be matched one after the other.
pub trait ExprArray {
}

impl<T: Expr, U: ExprArray> ExprArray for Concat<T, U> {
}

impl<T: Expr, U: ExprArray> Expr for Concat<T, U> {
}

impl ExprArray for End {
}

/// An alternation: `This` matched, or one of the `Other` alternatives.
#[derive(Debug)]
pub enum Alternate<T: Expr, U: ExprAlternate> {
    This(T),
    Other(U),
}

/// A chain of alternatives.
pub trait ExprAlternate {
}

impl<T: Expr, U: ExprAlternate> ExprAlternate for Alternate<T, U> {
}

impl<T: Expr, U: ExprAlternate> Expr for Alternate<T, U> {
}

impl ExprAlternate for End {
}

} // verus!
