use vstd::prelude::*;

use crate::parser::literal::number::{
    spec_parse_base, spec_parse_digits, spec_parse_sign, Base, Sign,
};
use crate::parser::ParseError;

verus! {

/// A float literal, kept exactly as written: a radix, the whole-part
/// and fractional-part digit magnitudes most significant first, a
/// sign, and an optional exponent. No machine number is made at parse
/// time, so no precision is lost however long the digit runs are.
#[derive(Debug, Clone, PartialEq, Eq)]
pub struct Float {
    pub base: Base,
    pub whole: Vec<u8>,
    pub fractional: Vec<u8>,
    pub sign: Sign,
    pub exponent: Option<Exponent>,
}

/// The exponent of a decimal float literal, always read in base 10:
/// its own whole and fractional digit runs and sign.
#[derive(Debug, Clone, PartialEq, Eq)]
pub struct Exponent {
    pub whole: Vec<u8>,
    pub fractional: Vec<u8>,
    pub sign: Sign,
}

/// The mathematical content of a `Float`.
pub struct SpecFloat {
    pub base: Base,
    pub whole: Seq<u8>,
    pub fractional: Seq<u8>,
    pub sign: Sign,
    pub exponent: Option<SpecExponent>,
}

/// The mathematical content of an `Exponent`.
pub struct SpecExponent {
    pub whole: Seq<u8>,
    pub fractional: Seq<u8>,
    pub sign: Sign,
}

impl View for Exponent {
    type V = SpecExponent;

    open spec fn view(&self) -> SpecExponent {
        SpecExponent { whole: self.whole@, fractional: self.fractional@, sign: self.sign }
    }
}

impl View for Float {
    type V = SpecFloat;

    open spec fn view(&self) -> SpecFloat {
        SpecFloat {
            base: self.base,
            whole: self.whole@,
            fractional: self.fractional@,
            sign: self.sign,
            exponent: match self.exponent {
                Some(e) => Some(e@),
                None => None,
            },
        }
    }
}

/// An optional exponent at `pos`. Without an `e` or `E` marker nothing
/// is consumed and there is no exponent. With one: a sign, a required
/// decimal whole digit run, then an optional `.` and an optional
/// fractional run (missing digits leave it empty). Fails exactly when
/// the marker is present but the whole digit run is missing.
pub open spec fn spec_parse_exponent(s: Seq<char>, pos: int) -> Option<(int, Option<SpecExponent>)> {
    if 0 <= pos < s.len() && (s[pos] == 'e' || s[pos] == 'E') {
        let (p1, sign) = spec_parse_sign(s, pos + 1);
        match spec_parse_digits(Base::Decimal, s, p1) {
            Some((p2, whole)) => {
                let p3 = if p2 < s.len() && s[p2] == '.' {
                    p2 + 1
                } else {
                    p2
                };
                match spec_parse_digits(Base::Decimal, s, p3) {
                    Some((p4, fractional)) => Some(
                        (p4, Some(SpecExponent { whole, fractional, sign })),
                    ),
                    None => Some((p3, Some(SpecExponent { whole, fractional: Seq::empty(), sign }))),
                }
            },
            None => None,
        }
    } else {
        Some((pos, None))
    }
}

/// A float literal at `pos`: an optional sign, an optional base
/// prefix, an optional whole digit run, a required `.`, a required
/// fractional digit run, and — only when the base is decimal — an
/// optional exponent.
pub open spec fn spec_parse_float(s: Seq<char>, pos: int) -> Option<(int, SpecFloat)> {
    let (p1, sign) = spec_parse_sign(s, pos);
    let (p2, base) = spec_parse_base(s, p1);
    let (p3, whole): (int, Seq<u8>) = match spec_parse_digits(base, s, p2) {
        Some((p, ds)) => (p, ds),
        None => (p2, Seq::empty()),
    };
    if 0 <= p3 < s.len() && s[p3] == '.' {
        match spec_parse_digits(base, s, p3 + 1) {
            Some((p4, fractional)) => if base == Base::Decimal {
                match spec_parse_exponent(s, p4) {
                    Some((p5, exponent)) => Some(
                        (p5, SpecFloat { base, whole, fractional, sign, exponent }),
                    ),
                    None => None,
                }
            } else {
                Some((p4, SpecFloat { base, whole, fractional, sign, exponent: None }))
            },
            None => None,
        }
    } else {
        None
    }
}

impl Exponent {
    /// Reads an optional exponent at `pos`.
    pub fn parse(input: &[char], pos: usize) -> (r: Result<
        (usize, Option<Exponent>),
        ParseError,
    >)
        requires
            pos <= input@.len(),
        ensures
            match r {
                Ok((p2, e)) => spec_parse_exponent(input@, pos as int) == Some(
                    (
                        p2 as int,
                        match e {
                            Some(x) => Some(x@),
                            None => None,
                        },
                    ),
                ) && pos <= p2 <= input@.len(),
                Err(e) => spec_parse_exponent(input@, pos as int) is None && e.offset
                    <= input@.len(),
            },
    {
        if pos < input.len() && (input[pos] == 'e' || input[pos] == 'E') {
            let (p1, sign) = Sign::parse(input, pos + 1);
            match Base::Decimal.parse_digits(input, p1) {
                Ok((p2, whole)) => {
                    let p3 = if p2 < input.len() && input[p2] == '.' {
                        p2 + 1
                    } else {
                        p2
                    };
                    match Base::Decimal.parse_digits(input, p3) {
                        Ok((p4, fractional)) => Ok(
                            (p4, Some(Exponent { whole, fractional, sign })),
                        ),
                        Err(_) => Ok((p3, Some(Exponent { whole, fractional: Vec::new(), sign }))),
                    }
                },
                Err(e) => Err(e),
            }
        } else {
            Ok((pos, None))
        }
    }
}

impl Float {
    /// Reads a float literal at `pos`.
    pub fn parse(input: &[char], pos: usize) -> (r: Result<(usize, Float), ParseError>)
        requires
            pos <= input@.len(),
        ensures
            match r {
                Ok((p2, f)) => spec_parse_float(input@, pos as int) == Some((p2 as int, f@)) && pos
                    < p2 <= input@.len(),
                Err(e) => spec_parse_float(input@, pos as int) is None && e.offset
                    <= input@.len(),
            },
    {
        let (p1, sign) = Sign::parse(input, pos);
        let (p2, base) = Base::parse(input, p1);
        let (p3, whole) = match base.parse_digits(input, p2) {
            Ok((p, ds)) => (p, ds),
            Err(_) => (p2, Vec::new()),
        };
        if p3 < input.len() && input[p3] == '.' {
            match base.parse_digits(input, p3 + 1) {
                Ok((p4, fractional)) => if matches!(base, Base::Decimal) {
                    match Exponent::parse(input, p4) {
                        Ok((p5, exponent)) => Ok(
                            (p5, Float { base, whole, fractional, sign, exponent }),
                        ),
                        Err(e) => Err(e),
                    }
                } else {
                    Ok((p4, Float { base, whole, fractional, sign, exponent: None }))
                },
                Err(e) => Err(e),
            }
        } else {
            Err(ParseError::at(p3))
        }
    }
}

} // verus!
