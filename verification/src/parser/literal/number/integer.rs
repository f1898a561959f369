use vstd::prelude::*;

use crate::parser::literal::number::{
    spec_parse_base, spec_parse_digits, spec_parse_sign, Base, Sign,
};
use crate::parser::ParseError;

verus! {

/// An integer literal, kept exactly as written: a radix, the digit
/// magnitudes most significant first, and a sign. No machine number is
/// made at parse time.
#[derive(Debug, Clone, PartialEq, Eq)]
pub struct Integer {
    pub base: Base,
    pub digits: Vec<u8>,
    pub sign: Sign,
}

/// The mathematical content of an `Integer`: the same fields with the
/// digit run as a sequence.
pub struct SpecInteger {
    pub base: Base,
    pub digits: Seq<u8>,
    pub sign: Sign,
}

impl View for Integer {
    type V = SpecInteger;

    open spec fn view(&self) -> SpecInteger {
        SpecInteger { base: self.base, digits: self.digits@, sign: self.sign }
    }
}

/// An integer literal at `pos`: an optional sign, an optional base
/// prefix, then a digit run of that base. Fails exactly when the digit
/// run does.
pub open spec fn spec_parse_integer(s: Seq<char>, pos: int) -> Option<(int, SpecInteger)> {
    let (p1, sign) = spec_parse_sign(s, pos);
    let (p2, base) = spec_parse_base(s, p1);
    match spec_parse_digits(base, s, p2) {
        Some((p3, digits)) => Some((p3, SpecInteger { base, digits, sign })),
        None => None,
    }
}

impl Integer {
    /// Reads an integer literal at `pos`.
    pub fn parse(input: &[char], pos: usize) -> (r: Result<(usize, Integer), ParseError>)
        requires
            pos <= input@.len(),
        ensures
            match r {
                Ok((p2, n)) => spec_parse_integer(input@, pos as int) == Some((p2 as int, n@))
                    && pos < p2 <= input@.len(),
                Err(e) => spec_parse_integer(input@, pos as int) is None && e.offset
                    <= input@.len(),
            },
    {
        let (p1, sign) = Sign::parse(input, pos);
        let (p2, base) = Base::parse(input, p1);
        match base.parse_digits(input, p2) {
            Ok((p3, digits)) => Ok((p3, Integer { base, digits, sign })),
            Err(e) => Err(e),
        }
    }
}

} // verus!
