use vstd::prelude::*;

use crate::parser::expression::{
    lemma_view_expression_seq, lemma_view_unary_operator_seq, spec_parse_atom,
    view_expression, view_expression_seq, view_unary_operator, view_unary_operator_seq,
    Expression, SpecExpression,
};
use crate::parser::whitespace;
use crate::parser::{spec_bounded, ParseError};

verus! {

/// A unary operation: a prefix negation, or a postfix index access or
/// call, applied to an expression.
#[derive(Debug, PartialEq, Eq)]
pub struct Unary {
    pub operator: Operator,
    pub expression: Box<Expression>,
}

/// The mathematical content of a `Unary`.
pub struct SpecUnary {
    pub operator: SpecUnaryOperator,
    pub expression: Box<SpecExpression>,
}

/// A unary operator: the prefixes `-` and `!`, and the postfixes
/// `[...]` (index access) and `(...)` (call), which own the
/// expressions between their brackets.
#[derive(Debug, PartialEq, Eq)]
pub enum Operator {
    Negate,
    Not,
    Access(Box<Expression>),
    Call(Vec<Expression>),
}

/// The mathematical content of a unary `Operator`.
pub enum SpecUnaryOperator {
    Negate,
    Not,
    Access(Box<SpecExpression>),
    Call(Seq<SpecExpression>),
}

/// An atom together with the prefix and postfix operators written
/// around it, before reduction into `Unary` nodes.
#[derive(Debug, PartialEq, Eq)]
pub struct Term {
    pub prefix_operators: Vec<Operator>,
    pub expression: Expression,
    pub postfix_operators: Vec<Operator>,
}

/// The mathematical content of a `Term`.
pub struct SpecTerm {
    pub prefix_operators: Seq<SpecUnaryOperator>,
    pub expression: SpecExpression,
    pub postfix_operators: Seq<SpecUnaryOperator>,
}

impl View for Term {
    type V = SpecTerm;

    open spec fn view(&self) -> SpecTerm {
        SpecTerm {
            prefix_operators: view_unary_operator_seq(self.prefix_operators@),
            expression: view_expression(self.expression),
            postfix_operators: view_unary_operator_seq(self.postfix_operators@),
        }
    }
}

/// The binding power of a unary operator: every postfix binds tighter
/// than every prefix.
pub open spec fn spec_unary_binding_power(op: SpecUnaryOperator) -> u8 {
    match op {
        SpecUnaryOperator::Negate | SpecUnaryOperator::Not => 10,
        SpecUnaryOperator::Access(_) | SpecUnaryOperator::Call(_) => 20,
    }
}

/// Law: every postfix operator binds tighter than every prefix
/// operator, so in a reduced term the postfixes always wrap the atom
/// before any prefix does.
pub proof fn lemma_postfix_binds_tighter(prefix: SpecUnaryOperator, postfix: SpecUnaryOperator)
    requires
        prefix is Negate || prefix is Not,
        postfix is Access || postfix is Call,
    ensures
        spec_unary_binding_power(prefix) < spec_unary_binding_power(postfix),
{
}

/// A prefix operator at `pos`: `-` or `!`, followed by optional
/// whitespace.
pub open spec fn spec_parse_prefix(s: Seq<char>, pos: int) -> Option<(int, SpecUnaryOperator)> {
    if 0 <= pos < s.len() && s[pos] == '-' {
        Some(
            (
                spec_bounded(whitespace::spec_skip_ws(s, pos + 1), pos + 1, s.len() as int),
                SpecUnaryOperator::Negate,
            ),
        )
    } else if 0 <= pos < s.len() && s[pos] == '!' {
        Some(
            (
                spec_bounded(whitespace::spec_skip_ws(s, pos + 1), pos + 1, s.len() as int),
                SpecUnaryOperator::Not,
            ),
        )
    } else {
        None
    }
}

/// The run of prefix operators from `pos` on, appended to `acc`;
/// cannot fail.
pub open spec fn spec_prefix_list(s: Seq<char>, pos: int, acc: Seq<SpecUnaryOperator>) -> (
    int,
    Seq<SpecUnaryOperator>,
)
    decreases s.len() - pos,
{
    match spec_parse_prefix(s, pos) {
        Some((p2, op)) => if pos < p2 <= s.len() {
            spec_prefix_list(s, p2, acc.push(op))
        } else {
            (pos, acc)
        },
        None => (pos, acc),
    }
}

/// The expressions of a call's argument list from `pos` on, appended
/// to `acc`: expressions standing side by side, with no separator
/// token. Cannot fail; stops where no expression matches.
pub open spec fn spec_call_args(s: Seq<char>, pos: int, acc: Seq<SpecExpression>) -> (
    int,
    Seq<SpecExpression>,
)
    decreases s.len() - pos, 14int,
{
    match crate::parser::expression::spec_parse_expression(s, pos) {
        Some((p2, e)) => if pos < p2 <= s.len() {
            spec_call_args(s, p2, acc.push(e))
        } else {
            (pos, acc)
        },
        None => (pos, acc),
    }
}

/// A postfix operator at `pos`: optional whitespace, then `[`
/// expression `]` making an index access, or `(` any number of
/// expressions `)` making a call.
pub open spec fn spec_parse_postfix(s: Seq<char>, pos: int) -> Option<(int, SpecUnaryOperator)>
    decreases s.len() - pos, 5int,
{
    let q = spec_bounded(whitespace::spec_skip_ws(s, pos), pos, s.len() as int);
    if q < s.len() && s[q] == '[' {
        match crate::parser::expression::spec_parse_expression(s, q + 1) {
            Some((p, e)) => if 0 <= p < s.len() && s[p] == ']' {
                Some((p + 1, SpecUnaryOperator::Access(Box::new(e))))
            } else {
                None
            },
            None => None,
        }
    } else if q < s.len() && s[q] == '(' {
        let (p, args) = spec_call_args(s, q + 1, Seq::empty());
        if 0 <= p < s.len() && s[p] == ')' {
            Some((p + 1, SpecUnaryOperator::Call(args)))
        } else {
            None
        }
    } else {
        None
    }
}

/// The run of postfix operators from `pos` on, appended to `acc`;
/// cannot fail.
pub open spec fn spec_postfix_list(s: Seq<char>, pos: int, acc: Seq<SpecUnaryOperator>) -> (
    int,
    Seq<SpecUnaryOperator>,
)
    decreases s.len() - pos, 6int,
{
    match spec_parse_postfix(s, pos) {
        Some((p2, op)) => if pos < p2 <= s.len() {
            spec_postfix_list(s, p2, acc.push(op))
        } else {
            (pos, acc)
        },
        None => (pos, acc),
    }
}

/// A raw term at `pos`: any number of prefix operators, one atom, any
/// number of postfix operators.
pub open spec fn spec_parse_unary_term(s: Seq<char>, pos: int) -> Option<(int, SpecTerm)>
    decreases s.len() - pos, 7int,
{
    let (p1, prefixes) = spec_prefix_list(s, pos, Seq::empty());
    let p1b = spec_bounded(p1, pos, s.len() as int);
    match spec_parse_atom(s, p1b) {
        None => None,
        Some((p2, e)) => {
            let p2b = spec_bounded(p2, p1b, s.len() as int);
            let (p3, postfixes) = spec_postfix_list(s, p2b, Seq::empty());
            Some(
                (
                    p3,
                    SpecTerm {
                        prefix_operators: prefixes,
                        expression: e,
                        postfix_operators: postfixes,
                    },
                ),
            )
        },
    }
}

/// Reduces a raw term to one expression. Pending postfixes are taken
/// front first (source order), pending prefixes back first (innermost
/// first); of two pending operators the one with the higher binding
/// power wraps the expression first, so every postfix (power 20)
/// applies before any prefix (power 10).
pub open spec fn spec_reduce_term(
    prefixes: Seq<SpecUnaryOperator>,
    e: SpecExpression,
    postfixes: Seq<SpecUnaryOperator>,
) -> SpecExpression
    decreases prefixes.len() + postfixes.len(),
{
    if prefixes.len() == 0 && postfixes.len() == 0 {
        e
    } else if prefixes.len() == 0 {
        spec_reduce_term(
            prefixes,
            SpecExpression::Unary(
                SpecUnary { operator: postfixes.first(), expression: Box::new(e) },
            ),
            postfixes.drop_first(),
        )
    } else if postfixes.len() == 0 {
        spec_reduce_term(
            prefixes.drop_last(),
            SpecExpression::Unary(SpecUnary { operator: prefixes.last(), expression: Box::new(e) }),
            postfixes,
        )
    } else if spec_unary_binding_power(prefixes.last()) > spec_unary_binding_power(
        postfixes.first(),
    ) {
        spec_reduce_term(
            prefixes.drop_last(),
            SpecExpression::Unary(SpecUnary { operator: prefixes.last(), expression: Box::new(e) }),
            postfixes,
        )
    } else {
        spec_reduce_term(
            prefixes,
            SpecExpression::Unary(
                SpecUnary { operator: postfixes.first(), expression: Box::new(e) },
            ),
            postfixes.drop_first(),
        )
    }
}

/// The whole unary layer at `pos`: a raw term, reduced to one
/// expression.
pub open spec fn spec_parse_unary(s: Seq<char>, pos: int) -> Option<(int, SpecExpression)>
    decreases s.len() - pos, 8int,
{
    match spec_parse_unary_term(s, pos) {
        Some((p, t)) => Some(
            (p, spec_reduce_term(t.prefix_operators, t.expression, t.postfix_operators)),
        ),
        None => None,
    }
}

impl Operator {
    /// Reads a prefix operator at `pos`.
    pub fn parse_prefix(input: &[char], pos: usize) -> (r: Result<(usize, Operator), ParseError>)
        requires
            pos <= input@.len(),
        ensures
            match r {
                Ok((p2, op)) => spec_parse_prefix(input@, pos as int) == Some(
                    (p2 as int, view_unary_operator(op)),
                ) && pos < p2 <= input@.len(),
                Err(e) => spec_parse_prefix(input@, pos as int) is None && e.offset
                    <= input@.len(),
            },
    {
        if pos < input.len() && input[pos] == '-' {
            Ok((whitespace::optional(input, pos + 1), Operator::Negate))
        } else if pos < input.len() && input[pos] == '!' {
            Ok((whitespace::optional(input, pos + 1), Operator::Not))
        } else {
            Err(ParseError::at(pos))
        }
    }

    /// Reads a postfix operator at `pos`.
    pub fn parse_postfix(input: &[char], pos: usize) -> (r: Result<(usize, Operator), ParseError>)
        requires
            pos <= input@.len(),
        ensures
            match r {
                Ok((p2, op)) => spec_parse_postfix(input@, pos as int) == Some(
                    (p2 as int, view_unary_operator(op)),
                ) && pos < p2 <= input@.len(),
                Err(e) => spec_parse_postfix(input@, pos as int) is None && e.offset
                    <= input@.len(),
            },
        decreases input@.len() - pos, 5int,
    {
        let q = whitespace::optional(input, pos);
        if q < input.len() && input[q] == '[' {
            match Expression::parse(input, q + 1) {
                Ok((p, e)) => {
                    if p < input.len() && input[p] == ']' {
                        Ok((p + 1, Operator::Access(Box::new(e))))
                    } else {
                        Err(ParseError::at(p))
                    }
                },
                Err(e) => Err(e),
            }
        } else if q < input.len() && input[q] == '(' {
            proof {
                lemma_view_expression_seq(Seq::<Expression>::empty());
                assert(view_expression_seq(Seq::<Expression>::empty()) =~= Seq::<
                    SpecExpression,
                >::empty());
            }
            let (p, args) = parse_call_args(input, q + 1, Vec::new());
            if p < input.len() && input[p] == ')' {
                Ok((p + 1, Operator::Call(args)))
            } else {
                Err(ParseError::at(p))
            }
        } else {
            Err(ParseError::at(q))
        }
    }

    /// The binding power of this operator.
    pub fn binding_power(&self) -> (r: u8)
        ensures
            r == spec_unary_binding_power(view_unary_operator(*self)),
    {
        match self {
            Operator::Negate | Operator::Not => 10,
            Operator::Access(_) | Operator::Call(_) => 20,
        }
    }
}

/// Reads the expressions of a call's argument list from `pos` on,
/// appending to `acc`; cannot fail.
fn parse_call_args(input: &[char], pos: usize, acc: Vec<Expression>) -> (r: (
    usize,
    Vec<Expression>,
))
    requires
        pos <= input@.len(),
    ensures
        spec_call_args(input@, pos as int, view_expression_seq(acc@)) == (
            r.0 as int,
            view_expression_seq(r.1@),
        ),
        pos <= r.0 <= input@.len(),
    decreases input@.len() - pos, 14int,
{
    match Expression::parse(input, pos) {
        Err(_) => (pos, acc),
        Ok((p2, e)) => {
            let ghost old_acc = acc@;
            let mut acc2 = acc;
            acc2.push(e);
            proof {
                lemma_view_expression_seq(old_acc);
                lemma_view_expression_seq(acc2@);
                assert(view_expression_seq(acc2@) =~= view_expression_seq(old_acc).push(
                    view_expression(e),
                ));
            }
            parse_call_args(input, p2, acc2)
        },
    }
}

/// Reads the run of prefix operators from `pos` on, appending to
/// `acc`; cannot fail.
fn parse_prefix_list(input: &[char], pos: usize, acc: Vec<Operator>) -> (r: (usize, Vec<Operator>))
    requires
        pos <= input@.len(),
    ensures
        spec_prefix_list(input@, pos as int, view_unary_operator_seq(acc@)) == (
            r.0 as int,
            view_unary_operator_seq(r.1@),
        ),
        pos <= r.0 <= input@.len(),
    decreases input@.len() - pos,
{
    match Operator::parse_prefix(input, pos) {
        Err(_) => (pos, acc),
        Ok((p2, op)) => {
            let ghost old_acc = acc@;
            let ghost op_view = view_unary_operator(op);
            let mut acc2 = acc;
            acc2.push(op);
            proof {
                lemma_view_unary_operator_seq(old_acc);
                lemma_view_unary_operator_seq(acc2@);
                assert(view_unary_operator_seq(acc2@) =~= view_unary_operator_seq(old_acc).push(
                    op_view,
                ));
            }
            parse_prefix_list(input, p2, acc2)
        },
    }
}

/// Reads the run of postfix operators from `pos` on, appending to
/// `acc`; cannot fail.
fn parse_postfix_list(input: &[char], pos: usize, acc: Vec<Operator>) -> (r: (
    usize,
    Vec<Operator>,
))
    requires
        pos <= input@.len(),
    ensures
        spec_postfix_list(input@, pos as int, view_unary_operator_seq(acc@)) == (
            r.0 as int,
            view_unary_operator_seq(r.1@),
        ),
        pos <= r.0 <= input@.len(),
    decreases input@.len() - pos, 6int,
{
    match Operator::parse_postfix(input, pos) {
        Err(_) => (pos, acc),
        Ok((p2, op)) => {
            let ghost old_acc = acc@;
            let ghost op_view = view_unary_operator(op);
            let mut acc2 = acc;
            acc2.push(op);
            proof {
                lemma_view_unary_operator_seq(old_acc);
                lemma_view_unary_operator_seq(acc2@);
                assert(view_unary_operator_seq(acc2@) =~= view_unary_operator_seq(old_acc).push(
                    op_view,
                ));
            }
            parse_postfix_list(input, p2, acc2)
        },
    }
}

impl Term {
    /// Reads a raw term at `pos`: prefix operators, one atom, postfix
    /// operators.
    pub fn parse(input: &[char], pos: usize) -> (r: Result<(usize, Term), ParseError>)
        requires
            pos <= input@.len(),
        ensures
            match r {
                Ok((p2, t)) => spec_parse_unary_term(input@, pos as int) == Some((p2 as int, t@))
                    && pos < p2 <= input@.len(),
                Err(e) => spec_parse_unary_term(input@, pos as int) is None && e.offset
                    <= input@.len(),
            },
        decreases input@.len() - pos, 7int,
    {
        proof {
            lemma_view_unary_operator_seq(Seq::<Operator>::empty());
            assert(view_unary_operator_seq(Seq::<Operator>::empty()) =~= Seq::<
                SpecUnaryOperator,
            >::empty());
        }
        let (p1, prefix_operators) = parse_prefix_list(input, pos, Vec::new());
        match Expression::parse_atom(input, p1) {
            Err(e) => Err(e),
            Ok((p2, expression)) => {
                let (p3, postfix_operators) = parse_postfix_list(input, p2, Vec::new());
                Ok((p3, Term { prefix_operators, expression, postfix_operators }))
            },
        }
    }

    /// Reduces this raw term to one expression, applying postfix
    /// operators before prefix operators.
    pub fn reduce(self) -> (e: Expression)
        ensures
            e@ == spec_reduce_term(
                view_unary_operator_seq(self.prefix_operators@),
                view_expression(self.expression),
                view_unary_operator_seq(self.postfix_operators@),
            ),
        decreases self.prefix_operators@.len() + self.postfix_operators@.len(),
    {
        let Term { mut prefix_operators, expression, mut postfix_operators } = self;
        proof {
            lemma_view_unary_operator_seq(prefix_operators@);
            lemma_view_unary_operator_seq(postfix_operators@);
        }
        if prefix_operators.len() == 0 && postfix_operators.len() == 0 {
            expression
        } else {
            let apply_prefix: bool = if postfix_operators.len() == 0 {
                true
            } else if prefix_operators.len() == 0 {
                false
            } else {
                let i = prefix_operators.len() - 1;
                let pre_power = prefix_operators[i].binding_power();
                let post_power = postfix_operators[0].binding_power();
                pre_power > post_power
            };
            if apply_prefix {
                let ghost orig = prefix_operators@;
                let op = prefix_operators.pop().unwrap();
                proof {
                    lemma_view_unary_operator_seq(prefix_operators@);
                    assert(view_unary_operator_seq(prefix_operators@) =~= view_unary_operator_seq(
                        orig,
                    ).drop_last());
                }
                Term {
                    prefix_operators,
                    expression: Expression::Unary(
                        Unary { operator: op, expression: Box::new(expression) },
                    ),
                    postfix_operators,
                }.reduce()
            } else {
                let ghost orig = postfix_operators@;
                let op = postfix_operators.remove(0);
                proof {
                    lemma_view_unary_operator_seq(postfix_operators@);
                    assert(view_unary_operator_seq(postfix_operators@) =~= view_unary_operator_seq(
                        orig,
                    ).drop_first());
                }
                Term {
                    prefix_operators,
                    expression: Expression::Unary(
                        Unary { operator: op, expression: Box::new(expression) },
                    ),
                    postfix_operators,
                }.reduce()
            }
        }
    }
}

impl Unary {
    /// Parses a term — an expression with any number of prefix and
    /// postfix operators — and reduces it.
    pub fn parse(input: &[char], pos: usize) -> (r: Result<(usize, Expression), ParseError>)
        requires
            pos <= input@.len(),
        ensures
            match r {
                Ok((p2, e)) => spec_parse_unary(input@, pos as int) == Some((p2 as int, e@)) && pos
                    < p2 <= input@.len(),
                Err(e) => spec_parse_unary(input@, pos as int) is None && e.offset
                    <= input@.len(),
            },
        decreases input@.len() - pos, 8int,
    {
        match Term::parse(input, pos) {
            Ok((p, t)) => Ok((p, t.reduce())),
            Err(e) => Err(e),
        }
    }
}

} // verus!
