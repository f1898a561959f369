use vstd::prelude::*;

use crate::parser::expression::pratt::{spec_parse_terms, spec_reduce, Terms};
use crate::parser::expression::{Expression, SpecExpression};
use crate::parser::ParseError;

verus! {

/// A binary operation such as an addition or a comparison.
#[derive(Debug, PartialEq, Eq)]
pub struct Binary {
    pub left: Box<Expression>,
    pub operator: Operator,
    pub right: Box<Expression>,
}

/// The mathematical content of a `Binary`.
pub struct SpecBinary {
    pub left: Box<SpecExpression>,
    pub operator: Operator,
    pub right: Box<SpecExpression>,
}

/// A binary operator.
#[derive(Debug, Clone, Copy, PartialEq, Eq, Structural)]
pub enum Operator {
    Add,
    Subtract,
    Multiply,
    Divide,
    Exponent,
    Modulo,
    And,
    Or,
    Xor,
    Equal,
    LessThan,
    LessThanOrEqual,
    GreaterThan,
    GreaterThanOrEqual,
    NotEqual,
}

/// The binding powers of a binary operator toward its left and right
/// operands. A level binds tighter than every level below it; in every
/// level but exponentiation the right power exceeds the left one, so
/// the level associates to the left, while exponentiation's right
/// power is the smaller one, so it associates to the right.
pub open spec fn spec_binding_powers(op: Operator) -> (u8, u8) {
    match op {
        Operator::Add | Operator::Subtract => (10, 15),
        Operator::Multiply | Operator::Divide | Operator::Modulo => (20, 25),
        Operator::Exponent => (35, 30),
        Operator::LessThan | Operator::LessThanOrEqual | Operator::GreaterThan
            | Operator::GreaterThanOrEqual => (40, 45),
        Operator::Equal | Operator::NotEqual => (50, 55),
        Operator::Xor => (60, 65),
        Operator::And => (70, 75),
        Operator::Or => (80, 85),
    }
}

/// A binary operator at `pos`, longest spelling first, so that `**`,
/// `<=` and `>=` are never mistaken for their one-character prefixes.
pub open spec fn spec_parse_operator(s: Seq<char>, pos: int) -> Option<(int, Operator)> {
    if 0 <= pos && pos + 2 <= s.len() && s[pos] == '*' && s[pos + 1] == '*' {
        Some((pos + 2, Operator::Exponent))
    } else if 0 <= pos && pos + 2 <= s.len() && s[pos] == '&' && s[pos + 1] == '&' {
        Some((pos + 2, Operator::And))
    } else if 0 <= pos && pos + 2 <= s.len() && s[pos] == '|' && s[pos + 1] == '|' {
        Some((pos + 2, Operator::Or))
    } else if 0 <= pos && pos + 2 <= s.len() && s[pos] == '=' && s[pos + 1] == '=' {
        Some((pos + 2, Operator::Equal))
    } else if 0 <= pos && pos + 2 <= s.len() && s[pos] == '!' && s[pos + 1] == '=' {
        Some((pos + 2, Operator::NotEqual))
    } else if 0 <= pos && pos + 2 <= s.len() && s[pos] == '<' && s[pos + 1] == '=' {
        Some((pos + 2, Operator::LessThanOrEqual))
    } else if 0 <= pos && pos + 2 <= s.len() && s[pos] == '>' && s[pos + 1] == '=' {
        Some((pos + 2, Operator::GreaterThanOrEqual))
    } else if 0 <= pos < s.len() && s[pos] == '+' {
        Some((pos + 1, Operator::Add))
    } else if 0 <= pos < s.len() && s[pos] == '-' {
        Some((pos + 1, Operator::Subtract))
    } else if 0 <= pos < s.len() && s[pos] == '*' {
        Some((pos + 1, Operator::Multiply))
    } else if 0 <= pos < s.len() && s[pos] == '/' {
        Some((pos + 1, Operator::Divide))
    } else if 0 <= pos < s.len() && s[pos] == '%' {
        Some((pos + 1, Operator::Modulo))
    } else if 0 <= pos < s.len() && s[pos] == '^' {
        Some((pos + 1, Operator::Xor))
    } else if 0 <= pos < s.len() && s[pos] == '<' {
        Some((pos + 1, Operator::LessThan))
    } else if 0 <= pos < s.len() && s[pos] == '>' {
        Some((pos + 1, Operator::GreaterThan))
    } else {
        None
    }
}

/// Law: exponentiation is the one right-associative level — its right
/// binding power is below its left one — while every other operator
/// has its right power above its left one, and so associates to the
/// left.
pub proof fn lemma_associativity(op: Operator)
    ensures
        op is Exponent <==> spec_binding_powers(op).1 < spec_binding_powers(op).0,
        !(op is Exponent) <==> spec_binding_powers(op).0 < spec_binding_powers(op).1,
{
}

/// Law: the precedence levels never interleave. Whenever one
/// operator's left power lies above another's, both of its powers lie
/// above both of the other's, so two operators of different levels
/// always compare the same way whichever of the four powers are held
/// against each other.
pub proof fn lemma_precedence_levels(tighter: Operator, looser: Operator)
    requires
        spec_binding_powers(looser).0 < spec_binding_powers(tighter).0,
    ensures
        spec_binding_powers(looser).0 < spec_binding_powers(tighter).1,
        spec_binding_powers(looser).1 < spec_binding_powers(tighter).0,
        spec_binding_powers(looser).1 < spec_binding_powers(tighter).1,
{
}

/// The whole binary layer at `pos`: a flat term sequence, reduced by
/// binding powers to one expression tree.
pub open spec fn spec_parse_binary(s: Seq<char>, pos: int) -> Option<(int, SpecExpression)>
    decreases s.len() - pos, 12int,
{
    match spec_parse_terms(s, pos) {
        Some((p2, t)) => Some((p2, spec_reduce(t.left_term, t.right))),
        None => None,
    }
}

impl Operator {
    /// Reads a binary operator at `pos`.
    pub fn parse(input: &[char], pos: usize) -> (r: Result<(usize, Operator), ParseError>)
        requires
            pos <= input@.len(),
        ensures
            match r {
                Ok((p2, op)) => spec_parse_operator(input@, pos as int) == Some((p2 as int, op))
                    && pos < p2 <= input@.len(),
                Err(e) => spec_parse_operator(input@, pos as int) is None && e.offset
                    <= input@.len(),
            },
    {
        let len = input.len();
        if len - pos >= 2 && input[pos] == '*' && input[pos + 1] == '*' {
            Ok((pos + 2, Operator::Exponent))
        } else if len - pos >= 2 && input[pos] == '&' && input[pos + 1] == '&' {
            Ok((pos + 2, Operator::And))
        } else if len - pos >= 2 && input[pos] == '|' && input[pos + 1] == '|' {
            Ok((pos + 2, Operator::Or))
        } else if len - pos >= 2 && input[pos] == '=' && input[pos + 1] == '=' {
            Ok((pos + 2, Operator::Equal))
        } else if len - pos >= 2 && input[pos] == '!' && input[pos + 1] == '=' {
            Ok((pos + 2, Operator::NotEqual))
        } else if len - pos >= 2 && input[pos] == '<' && input[pos + 1] == '=' {
            Ok((pos + 2, Operator::LessThanOrEqual))
        } else if len - pos >= 2 && input[pos] == '>' && input[pos + 1] == '=' {
            Ok((pos + 2, Operator::GreaterThanOrEqual))
        } else if pos < len && input[pos] == '+' {
            Ok((pos + 1, Operator::Add))
        } else if pos < len && input[pos] == '-' {
            Ok((pos + 1, Operator::Subtract))
        } else if pos < len && input[pos] == '*' {
            Ok((pos + 1, Operator::Multiply))
        } else if pos < len && input[pos] == '/' {
            Ok((pos + 1, Operator::Divide))
        } else if pos < len && input[pos] == '%' {
            Ok((pos + 1, Operator::Modulo))
        } else if pos < len && input[pos] == '^' {
            Ok((pos + 1, Operator::Xor))
        } else if pos < len && input[pos] == '<' {
            Ok((pos + 1, Operator::LessThan))
        } else if pos < len && input[pos] == '>' {
            Ok((pos + 1, Operator::GreaterThan))
        } else {
            Err(ParseError::at(pos))
        }
    }

    /// The ability of an operator to bind to its left and right
    /// operands.
    pub fn binding_powers(&self) -> (r: (u8, u8))
        ensures
            r == spec_binding_powers(*self),
    {
        match self {
            Operator::Add | Operator::Subtract => (10, 15),
            Operator::Multiply | Operator::Divide | Operator::Modulo => (20, 25),
            Operator::Exponent => (35, 30),
            Operator::LessThan | Operator::LessThanOrEqual | Operator::GreaterThan
                | Operator::GreaterThanOrEqual => (40, 45),
            Operator::Equal | Operator::NotEqual => (50, 55),
            Operator::Xor => (60, 65),
            Operator::And => (70, 75),
            Operator::Or => (80, 85),
        }
    }
}

impl Binary {
    /// Parses the binary layer at `pos` and reduces it to one
    /// expression.
    pub fn parse(input: &[char], pos: usize) -> (r: Result<(usize, Expression), ParseError>)
        requires
            pos <= input@.len(),
        ensures
            match r {
                Ok((p2, e)) => spec_parse_binary(input@, pos as int) == Some((p2 as int, e@))
                    && pos < p2 <= input@.len(),
                Err(e) => spec_parse_binary(input@, pos as int) is None && e.offset
                    <= input@.len(),
            },
        decreases input@.len() - pos, 12int,
    {
        match Terms::parse(input, pos) {
            Ok((p2, terms)) => Ok((p2, terms.reduce())),
            Err(e) => Err(e),
        }
    }
}

} // verus!
