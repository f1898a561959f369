use vstd::prelude::*;

use crate::parser::ParseError;

verus! {

/// A boolean literal.
#[derive(Debug, Clone, Copy, PartialEq, Eq, Structural)]
pub struct Boolean(pub bool);

/// A boolean literal at `pos`: the word `true` or the word `false`.
pub open spec fn spec_parse_boolean(s: Seq<char>, pos: int) -> Option<(int, bool)> {
    if 0 <= pos && pos + 4 <= s.len() && s[pos] == 't' && s[pos + 1] == 'r' && s[pos + 2] == 'u'
        && s[pos + 3] == 'e' {
        Some((pos + 4, true))
    } else if 0 <= pos && pos + 5 <= s.len() && s[pos] == 'f' && s[pos + 1] == 'a' && s[pos + 2]
        == 'l' && s[pos + 3] == 's' && s[pos + 4] == 'e' {
        Some((pos + 5, false))
    } else {
        None
    }
}

impl Boolean {
    /// Reads a boolean literal at `pos`.
    pub fn parse(input: &[char], pos: usize) -> (r: Result<(usize, Boolean), ParseError>)
        requires
            pos <= input@.len(),
        ensures
            match r {
                Ok((p2, b)) => spec_parse_boolean(input@, pos as int) == Some((p2 as int, b.0))
                    && pos < p2 <= input@.len(),
                Err(e) => spec_parse_boolean(input@, pos as int) is None && e.offset
                    <= input@.len(),
            },
    {
        let len = input.len();
        if len - pos >= 4 && input[pos] == 't' && input[pos + 1] == 'r' && input[pos + 2] == 'u'
            && input[pos + 3] == 'e' {
            Ok((pos + 4, Boolean(true)))
        } else if len - pos >= 5 && input[pos] == 'f' && input[pos + 1] == 'a' && input[pos + 2]
            == 'l' && input[pos + 3] == 's' && input[pos + 4] == 'e' {
            Ok((pos + 5, Boolean(false)))
        } else {
            Err(ParseError::at(pos))
        }
    }
}

} // verus!
