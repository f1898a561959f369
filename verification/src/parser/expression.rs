use vstd::prelude::*;

pub mod binary;
pub mod pratt;
pub mod unary;

use crate::parser::function::{spec_parse_function, Function, SpecFunction};
use crate::parser::identifier::{spec_parse_identifier, Identifier};
use crate::parser::let_in::{spec_parse_let_in, Assignment, LetIn, SpecAssignment, SpecLetIn};
use crate::parser::literal::{spec_parse_literal, Literal, SpecLiteral};
use crate::parser::whitespace;
use crate::parser::{spec_bounded, Context, ParseError};
use binary::{spec_parse_binary, Binary, SpecBinary};
use unary::{spec_parse_unary, SpecUnary, SpecUnaryOperator, Unary};

verus! {

/// An expression of the language: an exclusively owned tree. Every
/// non-leaf variant owns its children outright; no two nodes share a
/// child.
#[derive(Debug, PartialEq, Eq)]
pub enum Expression {
    Literal(Literal),
    Binary(Binary),
    Unary(Unary),
    Identifier(Identifier),
    LetIn(LetIn),
    Function(Function),
}

/// The mathematical content of an `Expression`.
pub enum SpecExpression {
    Literal(SpecLiteral),
    Binary(SpecBinary),
    Unary(SpecUnary),
    Identifier(Seq<char>),
    LetIn(SpecLetIn),
    Function(SpecFunction),
}

/// The mathematical content of an expression tree.
pub open spec fn view_expression(e: Expression) -> SpecExpression
    decreases e,
{
    match e {
        Expression::Literal(l) => SpecExpression::Literal(l@),
        Expression::Binary(b) => SpecExpression::Binary(
            SpecBinary {
                left: Box::new(view_expression(*b.left)),
                operator: b.operator,
                right: Box::new(view_expression(*b.right)),
            },
        ),
        Expression::Unary(u) => SpecExpression::Unary(
            SpecUnary {
                operator: view_unary_operator(u.operator),
                expression: Box::new(view_expression(*u.expression)),
            },
        ),
        Expression::Identifier(id) => SpecExpression::Identifier(id@),
        Expression::LetIn(l) => SpecExpression::LetIn(
            SpecLetIn {
                assignments: view_assignment_seq(l.assignments@),
                expression: Box::new(view_expression(*l.expression)),
            },
        ),
        Expression::Function(f) => SpecExpression::Function(
            SpecFunction {
                parameters: f.parameters@,
                return_type: f.return_type@,
                body: Box::new(view_expression(*f.body)),
            },
        ),
    }
}

/// The mathematical content of a unary operator, whose postfix forms
/// own expressions of their own.
pub open spec fn view_unary_operator(op: unary::Operator) -> SpecUnaryOperator
    decreases op,
{
    match op {
        unary::Operator::Negate => SpecUnaryOperator::Negate,
        unary::Operator::Not => SpecUnaryOperator::Not,
        unary::Operator::Access(e) => SpecUnaryOperator::Access(Box::new(view_expression(*e))),
        unary::Operator::Call(args) => SpecUnaryOperator::Call(view_expression_seq(args@)),
    }
}

/// The mathematical content of a sequence of expressions, elementwise.
pub open spec fn view_expression_seq(s: Seq<Expression>) -> Seq<SpecExpression>
    decreases s,
{
    if s.len() == 0 {
        Seq::empty()
    } else {
        seq![view_expression(s[0])] + view_expression_seq(s.drop_first())
    }
}

/// The mathematical content of a sequence of unary operators,
/// elementwise.
pub open spec fn view_unary_operator_seq(s: Seq<unary::Operator>) -> Seq<SpecUnaryOperator>
    decreases s,
{
    if s.len() == 0 {
        Seq::empty()
    } else {
        seq![view_unary_operator(s[0])] + view_unary_operator_seq(s.drop_first())
    }
}

/// The mathematical content of a sequence of assignments, elementwise.
pub open spec fn view_assignment_seq(s: Seq<Assignment>) -> Seq<SpecAssignment>
    decreases s,
{
    if s.len() == 0 {
        Seq::empty()
    } else {
        seq![
            SpecAssignment {
                identifier: s[0].identifier@,
                value: view_expression(s[0].value),
            },
        ] + view_assignment_seq(s.drop_first())
    }
}

/// A sequence of expressions is viewed elementwise.
pub proof fn lemma_view_expression_seq(s: Seq<Expression>)
    ensures
        view_expression_seq(s).len() == s.len(),
        forall|i: int|
            0 <= i < s.len() ==> view_expression_seq(s)[i] == view_expression(s[i]),
    decreases s.len(),
{
    if s.len() > 0 {
        lemma_view_expression_seq(s.drop_first());
    }
}

/// A sequence of unary operators is viewed elementwise.
pub proof fn lemma_view_unary_operator_seq(s: Seq<unary::Operator>)
    ensures
        view_unary_operator_seq(s).len() == s.len(),
        forall|i: int|
            0 <= i < s.len() ==> view_unary_operator_seq(s)[i] == view_unary_operator(s[i]),
    decreases s.len(),
{
    if s.len() > 0 {
        lemma_view_unary_operator_seq(s.drop_first());
    }
}

/// A sequence of assignments is viewed elementwise.
pub proof fn lemma_view_assignment_seq(s: Seq<Assignment>)
    ensures
        view_assignment_seq(s).len() == s.len(),
        forall|i: int|
            0 <= i < s.len() ==> view_assignment_seq(s)[i] == (SpecAssignment {
                identifier: s[i].identifier@,
                value: view_expression(s[i].value),
            }),
    decreases s.len(),
{
    if s.len() > 0 {
        lemma_view_assignment_seq(s.drop_first());
    }
}

impl View for Expression {
    type V = SpecExpression;

    open spec fn view(&self) -> SpecExpression {
        view_expression(*self)
    }
}

/// An expression at `pos`: optional whitespace, then the binary
/// grammar, then optional whitespace.
pub open spec fn spec_parse_expression(s: Seq<char>, pos: int) -> Option<(int, SpecExpression)>
    decreases s.len() - pos, 13int,
{
    let q = spec_bounded(whitespace::spec_skip_ws(s, pos), pos, s.len() as int);
    match spec_parse_binary(s, q) {
        Some((p1, e)) => Some((whitespace::spec_skip_ws(s, p1), e)),
        None => None,
    }
}

/// A unary term at `pos`: optional whitespace, then the unary grammar,
/// then optional whitespace.
pub open spec fn spec_parse_term(s: Seq<char>, pos: int) -> Option<(int, SpecExpression)>
    decreases s.len() - pos, 9int,
{
    let q = spec_bounded(whitespace::spec_skip_ws(s, pos), pos, s.len() as int);
    match spec_parse_unary(s, q) {
        Some((p1, e)) => Some((whitespace::spec_skip_ws(s, p1), e)),
        None => None,
    }
}

/// A parenthesized group at `pos`: `(`, an expression, `)`.
pub open spec fn spec_parse_group(s: Seq<char>, pos: int) -> Option<(int, SpecExpression)>
    decreases s.len() - pos, 3int,
{
    if 0 <= pos < s.len() && s[pos] == '(' {
        match spec_parse_expression(s, pos + 1) {
            Some((p, e)) => if 0 <= p < s.len() && s[p] == ')' {
                Some((p + 1, e))
            } else {
                None
            },
            None => None,
        }
    } else {
        None
    }
}

/// An atom at `pos`, after optional whitespace: the first of let-in,
/// function literal, literal, parenthesized group and identifier to
/// match, all tried from the same position; then optional whitespace.
pub open spec fn spec_parse_atom(s: Seq<char>, pos: int) -> Option<(int, SpecExpression)>
    decreases s.len() - pos, 4int,
{
    let q = spec_bounded(whitespace::spec_skip_ws(s, pos), pos, s.len() as int);
    let inner: Option<(int, SpecExpression)> = if let Some((p, l)) = spec_parse_let_in(s, q) {
        Some((p, SpecExpression::LetIn(l)))
    } else if let Some((p, f)) = spec_parse_function(s, q) {
        Some((p, SpecExpression::Function(f)))
    } else if let Some((p, l)) = spec_parse_literal(s, q) {
        Some((p, SpecExpression::Literal(l)))
    } else if spec_parse_group(s, q) is Some {
        spec_parse_group(s, q)
    } else if let Some((p, w)) = spec_parse_identifier(s, q) {
        Some((p, SpecExpression::Identifier(w)))
    } else {
        None
    };
    match inner {
        Some((p2, e)) => Some((whitespace::spec_skip_ws(s, p2), e)),
        None => None,
    }
}

/// Law: parsing is deterministic. `Expression::parse` ensures its
/// result equals `spec_parse_expression` of the input and position —
/// a function of them alone — so any two results of parsing the same
/// input at the same position are structurally equal.
pub proof fn lemma_determinism(
    s: Seq<char>,
    pos: int,
    r1: Option<(int, SpecExpression)>,
    r2: Option<(int, SpecExpression)>,
)
    requires
        r1 == spec_parse_expression(s, pos),
        r2 == spec_parse_expression(s, pos),
    ensures
        r1 == r2,
{
}

impl Expression {
    /// Parses an arbitrary expression.
    pub fn parse(input: &[char], pos: usize) -> (r: Result<(usize, Expression), ParseError>)
        requires
            pos <= input@.len(),
        ensures
            match r {
                Ok((p2, e)) => spec_parse_expression(input@, pos as int) == Some((p2 as int, e@))
                    && pos < p2 <= input@.len(),
                Err(e) => spec_parse_expression(input@, pos as int) is None && e.offset
                    <= input@.len(),
            },
        decreases input@.len() - pos, 13int,
    {
        let q = whitespace::optional(input, pos);
        match Binary::parse(input, q) {
            Ok((p1, e)) => Ok((whitespace::optional(input, p1), e)),
            Err(e) => Err(e.in_context(Context::BinaryOperations, q)),
        }
    }

    /// Parses one unary term: an atom with its prefix and postfix
    /// operators attached.
    pub fn parse_term(input: &[char], pos: usize) -> (r: Result<(usize, Expression), ParseError>)
        requires
            pos <= input@.len(),
        ensures
            match r {
                Ok((p2, e)) => spec_parse_term(input@, pos as int) == Some((p2 as int, e@)) && pos
                    < p2 <= input@.len(),
                Err(e) => spec_parse_term(input@, pos as int) is None && e.offset
                    <= input@.len(),
            },
        decreases input@.len() - pos, 9int,
    {
        let q = whitespace::optional(input, pos);
        match Unary::parse(input, q) {
            Ok((p1, e)) => Ok((whitespace::optional(input, p1), e)),
            Err(e) => Err(e.in_context(Context::UnaryOperations, q)),
        }
    }

    /// Parses one atom: a literal, an identifier, a parenthesized
    /// group, a let-in or a function literal, whichever matches first.
    /// The failure keeps, of the failing alternatives, the one that
    /// reached furthest into the input.
    pub fn parse_atom(input: &[char], pos: usize) -> (r: Result<(usize, Expression), ParseError>)
        requires
            pos <= input@.len(),
        ensures
            match r {
                Ok((p2, e)) => spec_parse_atom(input@, pos as int) == Some((p2 as int, e@)) && pos
                    < p2 <= input@.len(),
                Err(e) => spec_parse_atom(input@, pos as int) is None && e.offset
                    <= input@.len(),
            },
        decreases input@.len() - pos, 4int,
    {
        let q = whitespace::optional(input, pos);
        let e1 = match LetIn::parse(input, q) {
            Ok((p, l)) => {
                return Ok((whitespace::optional(input, p), Expression::LetIn(l)));
            },
            Err(e) => e.in_context(Context::LetIn, q),
        };
        let e2 = match Function::parse(input, q) {
            Ok((p, f)) => {
                return Ok((whitespace::optional(input, p), Expression::Function(f)));
            },
            Err(e) => e.in_context(Context::Function, q),
        };
        let e3 = match Literal::parse(input, q) {
            Ok((p, l)) => {
                return Ok((whitespace::optional(input, p), Expression::Literal(l)));
            },
            Err(e) => e.in_context(Context::Literal, q),
        };
        let e4 = if q < input.len() && input[q] == '(' {
            match Self::parse(input, q + 1) {
                Ok((p, e)) => {
                    if p < input.len() && input[p] == ')' {
                        return Ok((whitespace::optional(input, p + 1), e));
                    } else {
                        ParseError::at(p).in_context(Context::Group, q)
                    }
                },
                Err(e) => e.in_context(Context::Group, q),
            }
        } else {
            ParseError::at(q).in_context(Context::Group, q)
        };
        let e5 = match Identifier::parse(input, q) {
            Ok((p, id)) => {
                return Ok((whitespace::optional(input, p), Expression::Identifier(id)));
            },
            Err(e) => e.in_context(Context::Identifier, q),
        };
        Err(e1.furthest(e2).furthest(e3).furthest(e4).furthest(e5))
    }
}

} // verus!
