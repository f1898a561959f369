use vstd::prelude::*;

use crate::parser::ParseError;

verus! {

/// A character literal.
#[derive(Debug, Clone, Copy, PartialEq, Eq, Structural)]
pub struct Character(pub char);

/// One lexical character at `pos`: any character except a backslash
/// stands for itself; a backslash must be followed by one of `n`, `r`,
/// `'`, `"` or `0`, standing for line feed, carriage return, quote,
/// double quote or the nul character.
pub open spec fn spec_parse_char(s: Seq<char>, pos: int) -> Option<(int, char)> {
    if 0 <= pos < s.len() {
        if s[pos] != '\\' {
            Some((pos + 1, s[pos]))
        } else if pos + 2 <= s.len() {
            if s[pos + 1] == 'n' {
                Some((pos + 2, '\n'))
            } else if s[pos + 1] == 'r' {
                Some((pos + 2, '\r'))
            } else if s[pos + 1] == '\'' {
                Some((pos + 2, '\''))
            } else if s[pos + 1] == '"' {
                Some((pos + 2, '"'))
            } else if s[pos + 1] == '0' {
                Some((pos + 2, '\0'))
            } else {
                None
            }
        } else {
            None
        }
    } else {
        None
    }
}

/// A character literal at `pos`: a quote, one lexical character, and a
/// closing quote.
pub open spec fn spec_parse_character(s: Seq<char>, pos: int) -> Option<(int, char)> {
    if 0 <= pos < s.len() && s[pos] == '\'' {
        match spec_parse_char(s, pos + 1) {
            Some((p2, c)) => if p2 < s.len() && s[p2] == '\'' {
                Some((p2 + 1, c))
            } else {
                None
            },
            None => None,
        }
    } else {
        None
    }
}

impl Character {
    /// Reads one lexical character at `pos`, resolving a two-character
    /// escape to the character it stands for.
    pub fn parse_char(input: &[char], pos: usize) -> (r: Result<(usize, char), ParseError>)
        requires
            pos <= input@.len(),
        ensures
            match r {
                Ok((p2, c)) => spec_parse_char(input@, pos as int) == Some((p2 as int, c)) && pos
                    < p2 <= input@.len(),
                Err(e) => spec_parse_char(input@, pos as int) is None && e.offset
                    <= input@.len(),
            },
    {
        let len = input.len();
        if pos < len {
            if input[pos] != '\\' {
                Ok((pos + 1, input[pos]))
            } else if len - pos >= 2 {
                if input[pos + 1] == 'n' {
                    Ok((pos + 2, '\n'))
                } else if input[pos + 1] == 'r' {
                    Ok((pos + 2, '\r'))
                } else if input[pos + 1] == '\'' {
                    Ok((pos + 2, '\''))
                } else if input[pos + 1] == '"' {
                    Ok((pos + 2, '"'))
                } else if input[pos + 1] == '0' {
                    Ok((pos + 2, '\0'))
                } else {
                    Err(ParseError::at(pos + 1))
                }
            } else {
                Err(ParseError::at(pos))
            }
        } else {
            Err(ParseError::at(pos))
        }
    }

    /// Reads a character literal at `pos`.
    pub fn parse(input: &[char], pos: usize) -> (r: Result<(usize, Character), ParseError>)
        requires
            pos <= input@.len(),
        ensures
            match r {
                Ok((p2, c)) => spec_parse_character(input@, pos as int) == Some((p2 as int, c.0))
                    && pos < p2 <= input@.len(),
                Err(e) => spec_parse_character(input@, pos as int) is None && e.offset
                    <= input@.len(),
            },
    {
        if pos < input.len() && input[pos] == '\'' {
            match Self::parse_char(input, pos + 1) {
                Ok((p2, c)) => if p2 < input.len() && input[p2] == '\'' {
                    Ok((p2 + 1, Character(c)))
                } else {
                    Err(ParseError::at(p2))
                },
                Err(e) => Err(e),
            }
        } else {
            Err(ParseError::at(pos))
        }
    }
}

} // verus!
