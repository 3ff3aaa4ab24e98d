//! Literal characters as types. A literal's value is always the character
//! itself, so the types hold nothing.
#![allow(non_camel_case_types)]
use vstd::prelude::*;
use crate::syntax::LiteralChar;

verus! {

#[derive(Debug)]
pub struct A;

impl LiteralChar for A {
}

#[derive(Debug)]
pub struct B;

impl LiteralChar for B {
}

#[derive(Debug)]
pub struct n;

impl LiteralChar for n {
}

#[derive(Debug)]
pub struct u;

impl LiteralChar for u {
}

#[derive(Debug)]
pub struct l;

impl LiteralChar for l {
}

/// The character `-`.
#[derive(Debug)]
pub struct Dash;

impl LiteralChar for Dash {
}

} // verus!
