use vstd::prelude::*;

pub mod boolean;
pub mod character;
pub mod number;
pub mod string;

use crate::parser::{Context, ParseError};
use boolean::{spec_parse_boolean, Boolean};
use character::{spec_parse_character, Character};
use number::float::{spec_parse_float, Float, SpecFloat};
use number::integer::{spec_parse_integer, Integer, SpecInteger};
use string::{spec_parse_str, Str};

verus! {

/// A literal value as written in the source: a number kept digit by
/// digit, a character, a string, or a boolean.
#[derive(Debug, Clone, PartialEq, Eq)]
pub enum Literal {
    Integer(Integer),
    Float(Float),
    Character(Character),
    String(Str),
    Boolean(Boolean),
}

/// The mathematical content of a `Literal`.
pub enum SpecLiteral {
    Integer(SpecInteger),
    Float(SpecFloat),
    Character(char),
    String(Seq<char>),
    Boolean(bool),
}

impl View for Literal {
    type V = SpecLiteral;

    open spec fn view(&self) -> SpecLiteral {
        match self {
            Literal::Integer(n) => SpecLiteral::Integer(n@),
            Literal::Float(f) => SpecLiteral::Float(f@),
            Literal::Character(c) => SpecLiteral::Character(c.0),
            Literal::String(t) => SpecLiteral::String(t@),
            Literal::Boolean(b) => SpecLiteral::Boolean(b.0),
        }
    }
}

/// A literal at `pos`: the first of boolean, character, string, float
/// and integer to match, all tried from the same position.
pub open spec fn spec_parse_literal(s: Seq<char>, pos: int) -> Option<(int, SpecLiteral)> {
    if let Some((p, b)) = spec_parse_boolean(s, pos) {
        Some((p, SpecLiteral::Boolean(b)))
    } else if let Some((p, c)) = spec_parse_character(s, pos) {
        Some((p, SpecLiteral::Character(c)))
    } else if let Some((p, t)) = spec_parse_str(s, pos) {
        Some((p, SpecLiteral::String(t)))
    } else if let Some((p, f)) = spec_parse_float(s, pos) {
        Some((p, SpecLiteral::Float(f)))
    } else if let Some((p, n)) = spec_parse_integer(s, pos) {
        Some((p, SpecLiteral::Integer(n)))
    } else {
        None
    }
}

impl Literal {
    /// Reads a literal at `pos`. The failure keeps, of the failing
    /// alternatives, the one that reached furthest into the input.
    pub fn parse(input: &[char], pos: usize) -> (r: Result<(usize, Literal), ParseError>)
        requires
            pos <= input@.len(),
        ensures
            match r {
                Ok((p2, l)) => spec_parse_literal(input@, pos as int) == Some((p2 as int, l@))
                    && pos < p2 <= input@.len(),
                Err(e) => spec_parse_literal(input@, pos as int) is None && e.offset
                    <= input@.len(),
            },
    {
        let e1 = match Boolean::parse(input, pos) {
            Ok((p, b)) => {
                return Ok((p, Literal::Boolean(b)));
            },
            Err(e) => e.in_context(Context::Boolean, pos),
        };
        let e2 = match Character::parse(input, pos) {
            Ok((p, c)) => {
                return Ok((p, Literal::Character(c)));
            },
            Err(e) => e.in_context(Context::Character, pos),
        };
        let e3 = match Str::parse(input, pos) {
            Ok((p, t)) => {
                return Ok((p, Literal::String(t)));
            },
            Err(e) => e.in_context(Context::Str, pos),
        };
        let e4 = match Float::parse(input, pos) {
            Ok((p, f)) => {
                return Ok((p, Literal::Float(f)));
            },
            Err(e) => e.in_context(Context::Float, pos),
        };
        let e5 = match Integer::parse(input, pos) {
            Ok((p, n)) => {
                return Ok((p, Literal::Integer(n)));
            },
            Err(e) => e.in_context(Context::Integer, pos),
        };
        Err(e1.furthest(e2).furthest(e3).furthest(e4).furthest(e5))
    }
}

} // verus!
