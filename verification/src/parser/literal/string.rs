use vstd::prelude::*;

use crate::parser::literal::character::{spec_parse_char, Character};
use crate::parser::string_from_chars;
use crate::parser::ParseError;

verus! {

/// A string literal: the characters between the quotes, with escapes
/// already resolved.
#[derive(Debug, Clone, PartialEq, Eq)]
pub struct Str(pub String);

impl View for Str {
    type V = Seq<char>;

    open spec fn view(&self) -> Seq<char> {
        self.0@
    }
}

/// The characters of a string literal body from `pos` on, with `acc`
/// already read: lexical characters up to, but not including, an
/// unescaped double quote. Stops early, without failing, where no
/// lexical character can be read.
pub open spec fn spec_string_chars(s: Seq<char>, pos: int, acc: Seq<char>) -> (int, Seq<char>)
    decreases s.len() - pos,
{
    if 0 <= pos < s.len() && s[pos] != '"' {
        match spec_parse_char(s, pos) {
            Some((p2, c)) => if pos < p2 <= s.len() {
                spec_string_chars(s, p2, acc.push(c))
            } else {
                (pos, acc)
            },
            None => (pos, acc),
        }
    } else {
        (pos, acc)
    }
}

/// A string literal at `pos`: a double quote, any number of lexical
/// characters, and a closing double quote. Fails when the body cannot
/// reach a closing quote.
pub open spec fn spec_parse_str(s: Seq<char>, pos: int) -> Option<(int, Seq<char>)> {
    if 0 <= pos < s.len() && s[pos] == '"' {
        let (p2, cs) = spec_string_chars(s, pos + 1, Seq::empty());
        if 0 <= p2 < s.len() && s[p2] == '"' {
            Some((p2 + 1, cs))
        } else {
            None
        }
    } else {
        None
    }
}

impl Str {
    /// Reads a string literal at `pos`.
    pub fn parse(input: &[char], pos: usize) -> (r: Result<(usize, Str), ParseError>)
        requires
            pos <= input@.len(),
        ensures
            match r {
                Ok((p2, t)) => spec_parse_str(input@, pos as int) == Some((p2 as int, t@)) && pos
                    < p2 <= input@.len(),
                Err(e) => spec_parse_str(input@, pos as int) is None && e.offset
                    <= input@.len(),
            },
    {
        let len = input.len();
        if pos < len && input[pos] == '"' {
            let mut i: usize = pos + 1;
            let mut acc: Vec<char> = Vec::new();
            loop
                invariant
                    pos + 1 <= i <= len,
                    len == input@.len(),
                    input@[pos as int] == '"',
                    spec_string_chars(input@, pos + 1, Seq::empty()) == spec_string_chars(
                        input@,
                        i as int,
                        acc@,
                    ),
                decreases len - i,
            {
                if i < len && input[i] != '"' {
                    match Character::parse_char(input, i) {
                        Ok((p2, c)) => {
                            acc.push(c);
                            i = p2;
                        },
                        Err(_) => {
                            return Err(ParseError::at(i));
                        },
                    }
                } else {
                    if i < len && input[i] == '"' {
                        return Ok((i + 1, Str(string_from_chars(&acc))));
                    } else {
                        return Err(ParseError::at(i));
                    }
                }
            }
        } else {
            Err(ParseError::at(pos))
        }
    }
}

} // verus!
