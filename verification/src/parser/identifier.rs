use vstd::prelude::*;

use crate::parser::string_from_chars;
use crate::parser::ParseError;

verus! {

/// Whether a character counts as a letter for identifiers.
pub uninterp spec fn alphabetic(c: char) -> bool;

/// Whether a character counts as a letter or digit for identifiers.
pub uninterp spec fn alphanumeric(c: char) -> bool;

/// Relies on char::is_alphabetic: whether `c` is a letter, a fact of
/// the character alone.
#[verifier::external_body]
fn is_alphabetic_char(c: char) -> (r: bool)
    ensures
        r == alphabetic(c),
{
    c.is_alphabetic()
}

/// Relies on char::is_alphanumeric: whether `c` is a letter or digit,
/// a fact of the character alone.
#[verifier::external_body]
fn is_alphanumeric_char(c: char) -> (r: bool)
    ensures
        r == alphanumeric(c),
{
    c.is_alphanumeric()
}

/// A bare name.
#[derive(Debug, Clone, PartialEq, Eq)]
pub struct Identifier(pub String);

impl View for Identifier {
    type V = Seq<char>;

    open spec fn view(&self) -> Seq<char> {
        self.0@
    }
}

/// Whether `c` may start an identifier.
pub open spec fn spec_ident_start(c: char) -> bool {
    alphabetic(c) || c == '_'
}

/// Whether `c` may continue an identifier.
pub open spec fn spec_ident_continue(c: char) -> bool {
    alphanumeric(c) || c == '_'
}

/// The end of the run of identifier-continuing characters starting at
/// `pos`.
pub open spec fn spec_ident_tail(s: Seq<char>, pos: int) -> int
    decreases s.len() - pos,
{
    if 0 <= pos < s.len() && spec_ident_continue(s[pos]) {
        spec_ident_tail(s, pos + 1)
    } else {
        pos
    }
}

/// An identifier at `pos`: a letter or `_`, then letters, digits and
/// `_`, taken as far as they run. The word `in` is reserved and makes
/// the identifier fail, so that callers may try other grammar rules.
pub open spec fn spec_parse_identifier(s: Seq<char>, pos: int) -> Option<(int, Seq<char>)> {
    if 0 <= pos < s.len() && spec_ident_start(s[pos]) {
        let t = spec_ident_tail(s, pos + 1);
        let p2 = if pos + 1 <= t <= s.len() {
            t
        } else {
            pos + 1
        };
        let w = s.subrange(pos, p2);
        if w == seq!['i', 'n'] {
            None
        } else {
            Some((p2, w))
        }
    } else {
        None
    }
}

/// Law: the reserved word is never produced. Wherever identifier
/// parsing succeeds, the word read is not `in`.
pub proof fn lemma_reserved_word(s: Seq<char>, pos: int)
    ensures
        spec_parse_identifier(s, pos) matches Some((p, w)) ==> w != seq!['i', 'n'],
{
}

impl Identifier {
    /// Reads an identifier at `pos`.
    pub fn parse(input: &[char], pos: usize) -> (r: Result<(usize, Identifier), ParseError>)
        requires
            pos <= input@.len(),
        ensures
            match r {
                Ok((p2, id)) => spec_parse_identifier(input@, pos as int) == Some(
                    (p2 as int, id@),
                ) && pos < p2 <= input@.len(),
                Err(e) => spec_parse_identifier(input@, pos as int) is None && e.offset
                    <= input@.len(),
            },
    {
        let len = input.len();
        if pos < len && (is_alphabetic_char(input[pos]) || input[pos] == '_') {
            let mut acc: Vec<char> = Vec::new();
            acc.push(input[pos]);
            let mut i: usize = pos + 1;
            while i < len && (is_alphanumeric_char(input[i]) || input[i] == '_')
                invariant
                    pos + 1 <= i <= len,
                    len == input@.len(),
                    spec_ident_tail(input@, pos + 1) == spec_ident_tail(input@, i as int),
                    acc@ == input@.subrange(pos as int, i as int),
                decreases len - i,
            {
                proof {
                    assert(input@.subrange(pos as int, i + 1) == input@.subrange(
                        pos as int,
                        i as int,
                    ).push(input@[i as int]));
                }
                acc.push(input[i]);
                i = i + 1;
            }
            if acc.len() == 2 && acc[0] == 'i' && acc[1] == 'n' {
                proof {
                    assert(acc@ =~= seq!['i', 'n']);
                }
                Err(ParseError::at(pos))
            } else {
                Ok((i, Identifier(string_from_chars(&acc))))
            }
        } else {
            Err(ParseError::at(pos))
        }
    }
}

} // verus!
