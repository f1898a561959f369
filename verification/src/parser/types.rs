use vstd::prelude::*;

use crate::parser::identifier::{spec_parse_identifier, Identifier};
use crate::parser::ParseError;

verus! {

/// A nominal type name: a bare identifier, with no structure checked
/// at this layer.
#[derive(Debug, Clone, PartialEq, Eq)]
pub struct Type(pub Identifier);

impl View for Type {
    type V = Seq<char>;

    open spec fn view(&self) -> Seq<char> {
        self.0@
    }
}

/// A type name at `pos`: exactly an identifier.
pub open spec fn spec_parse_type(s: Seq<char>, pos: int) -> Option<(int, Seq<char>)> {
    spec_parse_identifier(s, pos)
}

impl Type {
    /// Reads a type name at `pos`.
    pub fn parse(input: &[char], pos: usize) -> (r: Result<(usize, Type), ParseError>)
        requires
            pos <= input@.len(),
        ensures
            match r {
                Ok((p2, t)) => spec_parse_type(input@, pos as int) == Some((p2 as int, t@)) && pos
                    < p2 <= input@.len(),
                Err(e) => spec_parse_type(input@, pos as int) is None && e.offset
                    <= input@.len(),
            },
    {
        match Identifier::parse(input, pos) {
            Ok((p2, id)) => Ok((p2, Type(id))),
            Err(e) => Err(e),
        }
    }
}

} // verus!
