use vstd::prelude::*;

use crate::parser::ParseError;

pub mod float;
pub mod integer;

verus! {

/// The radix of a numeric literal, chosen by its prefix: `0x`, `0o`,
/// `0b`, or none for decimal.
#[derive(Debug, Clone, Copy, PartialEq, Eq, Structural)]
pub enum Base {
    Decimal,
    Hexadecimal,
    Binary,
    Octal,
}

/// The sign of a numeric literal: a leading `-` makes it negative; a
/// leading `+`, or no sign at all, leaves it positive.
#[derive(Debug, Clone, Copy, PartialEq, Eq, Structural)]
pub enum Sign {
    Positive,
    Negative,
}

/// The numeric value of a radix.
pub open spec fn spec_radix(base: Base) -> u8 {
    match base {
        Base::Decimal => 10,
        Base::Hexadecimal => 16,
        Base::Binary => 2,
        Base::Octal => 8,
    }
}

/// Whether `c` is a digit of `base`. Hexadecimal digits beyond `9` may
/// be written in either case.
pub open spec fn spec_is_digit(base: Base, c: char) -> bool {
    match base {
        Base::Binary => c == '0' || c == '1',
        Base::Octal => '0' as u32 <= c as u32 && c as u32 <= '7' as u32,
        Base::Decimal => '0' as u32 <= c as u32 && c as u32 <= '9' as u32,
        Base::Hexadecimal => ('0' as u32 <= c as u32 && c as u32 <= '9' as u32) || ('a' as u32
            <= c as u32 && c as u32 <= 'f' as u32) || ('A' as u32 <= c as u32 && c as u32
            <= 'F' as u32),
    }
}

/// The magnitude a digit character stands for.
pub open spec fn spec_digit_value(c: char) -> u8 {
    if '0' as u32 <= c as u32 && c as u32 <= '9' as u32 {
        (c as u32 - '0' as u32) as u8
    } else if 'a' as u32 <= c as u32 && c as u32 <= 'f' as u32 {
        (c as u32 - 'a' as u32 + 10) as u8
    } else if 'A' as u32 <= c as u32 && c as u32 <= 'F' as u32 {
        (c as u32 - 'A' as u32 + 10) as u8
    } else {
        0
    }
}

/// A digit run in `base` starting at `pos` with the digits of `acc`
/// already read: one or more digits, each optionally followed by a
/// single `_` separator, which is discarded. Yields the position after
/// the run and the digit magnitudes in source order, or `None` when no
/// digit starts the run.
pub open spec fn spec_digits_from(base: Base, s: Seq<char>, pos: int, acc: Seq<u8>) -> Option<
    (int, Seq<u8>),
>
    decreases s.len() - pos,
{
    if 0 <= pos < s.len() && spec_is_digit(base, s[pos]) {
        let acc2 = acc.push(spec_digit_value(s[pos]));
        let p2 = if pos + 1 < s.len() && s[pos + 1] == '_' {
            pos + 2
        } else {
            pos + 1
        };
        spec_digits_from(base, s, p2, acc2)
    } else if acc.len() > 0 {
        Some((pos, acc))
    } else {
        None
    }
}

/// A complete digit run in `base` at `pos`: see `spec_digits_from`.
pub open spec fn spec_parse_digits(base: Base, s: Seq<char>, pos: int) -> Option<(int, Seq<u8>)> {
    spec_digits_from(base, s, pos, Seq::empty())
}

/// The base prefix at `pos`: `0x`, `0o` or `0b`, or nothing, in which
/// case the literal is decimal and no input is consumed.
pub open spec fn spec_parse_base(s: Seq<char>, pos: int) -> (int, Base) {
    if 0 <= pos && pos + 2 <= s.len() && s[pos] == '0' && s[pos + 1] == 'x' {
        (pos + 2, Base::Hexadecimal)
    } else if 0 <= pos && pos + 2 <= s.len() && s[pos] == '0' && s[pos + 1] == 'o' {
        (pos + 2, Base::Octal)
    } else if 0 <= pos && pos + 2 <= s.len() && s[pos] == '0' && s[pos + 1] == 'b' {
        (pos + 2, Base::Binary)
    } else {
        (pos, Base::Decimal)
    }
}

/// The sign marker at `pos`: `-`, `+`, or nothing. Only `-` makes the
/// value negative; consuming nothing is a positive sign.
pub open spec fn spec_parse_sign(s: Seq<char>, pos: int) -> (int, Sign) {
    if 0 <= pos < s.len() && s[pos] == '-' {
        (pos + 1, Sign::Negative)
    } else if 0 <= pos < s.len() && s[pos] == '+' {
        (pos + 1, Sign::Positive)
    } else {
        (pos, Sign::Positive)
    }
}

/// Whether `c` is a digit of `base`, executably.
pub fn digit_in(base: Base, c: char) -> (r: bool)
    ensures
        r == spec_is_digit(base, c),
{
    let u = c as u32;
    match base {
        Base::Binary => c == '0' || c == '1',
        Base::Octal => '0' as u32 <= u && u <= '7' as u32,
        Base::Decimal => '0' as u32 <= u && u <= '9' as u32,
        Base::Hexadecimal => ('0' as u32 <= u && u <= '9' as u32) || ('a' as u32 <= u && u
            <= 'f' as u32) || ('A' as u32 <= u && u <= 'F' as u32),
    }
}

/// The magnitude a digit character stands for, executably.
pub fn digit_value(c: char) -> (r: u8)
    ensures
        r == spec_digit_value(c),
{
    let u = c as u32;
    if '0' as u32 <= u && u <= '9' as u32 {
        (u - '0' as u32) as u8
    } else if 'a' as u32 <= u && u <= 'f' as u32 {
        (u - 'a' as u32 + 10) as u8
    } else if 'A' as u32 <= u && u <= 'F' as u32 {
        (u - 'A' as u32 + 10) as u8
    } else {
        0
    }
}

impl Base {
    /// The numeric value of this radix.
    pub fn radix(&self) -> (r: u8)
        ensures
            r == spec_radix(*self),
    {
        match self {
            Base::Decimal => 10,
            Base::Hexadecimal => 16,
            Base::Binary => 2,
            Base::Octal => 8,
        }
    }

    /// Reads the base prefix at `pos`; cannot fail.
    pub fn parse(input: &[char], pos: usize) -> (r: (usize, Base))
        requires
            pos <= input@.len(),
        ensures
            (r.0 as int, r.1) == spec_parse_base(input@, pos as int),
            pos <= r.0 <= input@.len(),
    {
        if pos < input.len() && pos + 1 < input.len() && input[pos] == '0' {
            if input[pos + 1] == 'x' {
                (pos + 2, Base::Hexadecimal)
            } else if input[pos + 1] == 'o' {
                (pos + 2, Base::Octal)
            } else if input[pos + 1] == 'b' {
                (pos + 2, Base::Binary)
            } else {
                (pos, Base::Decimal)
            }
        } else {
            (pos, Base::Decimal)
        }
    }

    /// Reads a digit run of this base at `pos`: one or more digits with
    /// optional single `_` separators after each. Fails exactly when no
    /// digit of the base stands at `pos`.
    pub fn parse_digits(&self, input: &[char], pos: usize) -> (r: Result<
        (usize, Vec<u8>),
        ParseError,
    >)
        requires
            pos <= input@.len(),
        ensures
            match r {
                Ok((p2, ds)) => spec_parse_digits(*self, input@, pos as int) == Some(
                    (p2 as int, ds@),
                ) && pos < p2 <= input@.len() && ds@.len() > 0,
                Err(e) => spec_parse_digits(*self, input@, pos as int) is None && e.offset
                    <= input@.len(),
            },
    {
        let len = input.len();
        let base = *self;
        let mut i: usize = pos;
        let mut acc: Vec<u8> = Vec::new();
        loop
            invariant
                pos <= i <= len,
                len == input@.len(),
                base == *self,
                spec_digits_from(base, input@, pos as int, Seq::empty()) == spec_digits_from(
                    base,
                    input@,
                    i as int,
                    acc@,
                ),
                acc@.len() > 0 ==> pos < i,
            decreases len - i,
        {
            if i < len && digit_in(base, input[i]) {
                acc.push(digit_value(input[i]));
                if i + 1 < len && input[i + 1] == '_' {
                    i = i + 2;
                } else {
                    i = i + 1;
                }
            } else {
                if acc.len() > 0 {
                    return Ok((i, acc));
                } else {
                    return Err(ParseError::at(i));
                }
            }
        }
    }
}

impl Sign {
    /// Reads the sign marker at `pos`; cannot fail.
    pub fn parse(input: &[char], pos: usize) -> (r: (usize, Sign))
        requires
            pos <= input@.len(),
        ensures
            (r.0 as int, r.1) == spec_parse_sign(input@, pos as int),
            pos <= r.0 <= input@.len(),
    {
        if pos < input.len() && input[pos] == '-' {
            (pos + 1, Sign::Negative)
        } else if pos < input.len() && input[pos] == '+' {
            (pos + 1, Sign::Positive)
        } else {
            (pos, Sign::Positive)
        }
    }
}

} // verus!
