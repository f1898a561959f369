use vstd::prelude::*;

pub mod expression;
pub mod function;
pub mod identifier;
pub mod let_in;
pub mod literal;
pub mod types;
pub mod whitespace;

verus! {

/// `p` when it lies in `[lo, hi]`, else `lo`: a totality guard that
/// keeps the positions flowing through the mutually recursive grammar
/// specifications inside the input, so that each of them terminates on
/// every argument. The executable parsers prove their positions are in
/// range, so for them the guard changes nothing.
pub open spec fn spec_bounded(p: int, lo: int, hi: int) -> int {
    if lo <= p <= hi {
        p
    } else {
        lo
    }
}

/// Relies on Iterator::collect building a String from chars: the
/// result holds exactly the characters of `v`, in order.
#[verifier::external_body]
pub(crate) fn string_from_chars(v: &Vec<char>) -> (s: String)
    ensures
        s@ == v@,
{
    v.iter().collect()
}

/// A grammar rule that can appear as a frame in a parse error: the
/// alternatives of the atom grammar and the two reduction layers, plus
/// the individual literal forms.
#[derive(Clone, Copy, PartialEq, Eq, Structural, Debug)]
pub enum Context {
    Literal,
    Boolean,
    Character,
    Str,
    Float,
    Integer,
    Group,
    Identifier,
    LetIn,
    Function,
    BinaryOperations,
    UnaryOperations,
}

/// The text of a rule's label, as an error report spells it.
pub open spec fn spec_label(c: Context) -> Seq<char> {
    match c {
        Context::Literal => "literal"@,
        Context::Boolean => "boolean"@,
        Context::Character => "character"@,
        Context::Str => "string"@,
        Context::Float => "float"@,
        Context::Integer => "integer"@,
        Context::Group => "group"@,
        Context::Identifier => "identifier"@,
        Context::LetIn => "let-in"@,
        Context::Function => "function"@,
        Context::BinaryOperations => "binary operations"@,
        Context::UnaryOperations => "unary operations"@,
    }
}

impl Context {
    /// The label of this rule as the error reports spell it.
    pub fn label(&self) -> (r: &'static str)
        ensures
            r@ == spec_label(*self),
    {
        match self {
            Context::Literal => "literal",
            Context::Boolean => "boolean",
            Context::Character => "character",
            Context::Str => "string",
            Context::Float => "float",
            Context::Integer => "integer",
            Context::Group => "group",
            Context::Identifier => "identifier",
            Context::LetIn => "let-in",
            Context::Function => "function",
            Context::BinaryOperations => "binary operations",
            Context::UnaryOperations => "unary operations",
        }
    }
}

/// A failed parse: the position (in characters) where the deepest
/// failing rule gave up, and the stack of rules that were being tried,
/// deepest first, each with the position where it started.
#[derive(Clone, PartialEq, Eq, Debug)]
pub struct ParseError {
    pub offset: usize,
    pub frames: Vec<(Context, usize)>,
}

impl ParseError {
    /// A fresh failure at `offset`, with no context frames yet.
    pub fn at(offset: usize) -> (e: ParseError)
        ensures
            e.offset == offset,
            e.frames@.len() == 0,
    {
        ParseError { offset, frames: Vec::new() }
    }

    /// Wraps the error in one more context frame: the rule `label`,
    /// which started at `start`.
    pub fn in_context(self, label: Context, start: usize) -> (e: ParseError)
        ensures
            e.offset == self.offset,
            e.frames@ == self.frames@.push((label, start)),
    {
        let mut frames = self.frames;
        frames.push((label, start));
        ParseError { offset: self.offset, frames }
    }

    /// Of two failing alternatives, keeps the one that got further into
    /// the input; the earlier alternative wins ties.
    pub fn furthest(self, other: ParseError) -> (e: ParseError)
        ensures
            e == self || e == other,
            e.offset == if other.offset > self.offset {
                other.offset
            } else {
                self.offset
            },
    {
        if other.offset > self.offset {
            other
        } else {
            self
        }
    }
}

/// The line (starting at 1) and column (in characters, starting at 1) of
/// the character position `offset` in `input`: one more than the number
/// of line feeds strictly before `offset`, and the distance from the
/// last line feed before `offset` (or from the start of the input).
pub open spec fn spec_line_column(s: Seq<char>, offset: int) -> (int, int)
    decreases offset,
{
    if offset <= 0 {
        (1, 1)
    } else {
        let (line, column) = spec_line_column(s, offset - 1);
        if s[offset - 1] == '\n' {
            (line + 1, 1)
        } else {
            (line, column + 1)
        }
    }
}

/// Computes the line and column of a character offset, for reporting a
/// parse error's location.
pub fn line_column(input: &[char], offset: usize) -> (r: (usize, usize))
    requires
        offset <= input@.len(),
        offset < usize::MAX,
    ensures
        (r.0 as int, r.1 as int) == spec_line_column(input@, offset as int),
{
    let mut line: usize = 1;
    let mut column: usize = 1;
    let mut i: usize = 0;
    while i < offset
        invariant
            i <= offset,
            offset <= input@.len(),
            offset < usize::MAX,
            line >= 1,
            column >= 1,
            line <= i + 1,
            column <= i + 1,
            (line as int, column as int) == spec_line_column(input@, i as int),
        decreases offset - i,
    {
        if input[i] == '\n' {
            line = line + 1;
            column = 1;
        } else {
            column = column + 1;
        }
        i = i + 1;
    }
    (line, column)
}

} // verus!
