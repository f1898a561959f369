use vstd::prelude::*;

use crate::parser::expression::binary::{
    spec_binding_powers, spec_parse_operator, Operator, SpecBinary,
};
use crate::parser::expression::{view_expression, Expression, SpecExpression};
use crate::parser::{spec_bounded, ParseError};

verus! {

/// The flat shape of a run of binary operations: the leftmost unary
/// term, then every (operator, term) pair to its right, stored in the
/// reverse of source order.
#[derive(Debug, PartialEq, Eq)]
pub struct Terms {
    pub left_term: Expression,
    pub right: Vec<(Operator, Expression)>,
}

/// The mathematical content of a `Terms`.
pub struct SpecTerms {
    pub left_term: SpecExpression,
    pub right: Seq<(Operator, SpecExpression)>,
}

/// The mathematical content of a sequence of (operator, term) pairs.
pub open spec fn view_pair_seq(s: Seq<(Operator, Expression)>) -> Seq<(Operator, SpecExpression)> {
    s.map_values(|p: (Operator, Expression)| (p.0, view_expression(p.1)))
}

impl View for Terms {
    type V = SpecTerms;

    open spec fn view(&self) -> SpecTerms {
        SpecTerms { left_term: view_expression(self.left_term), right: view_pair_seq(self.right@) }
    }
}

/// The (operator, term) pairs following the leftmost term, from `pos`
/// on, prepended one by one to `acc` — so the result lists them in the
/// reverse of source order. Stops, without failing, at the first
/// position where no operator or no term follows.
pub open spec fn spec_terms_tail(s: Seq<char>, pos: int, acc: Seq<(Operator, SpecExpression)>) -> (
    int,
    Seq<(Operator, SpecExpression)>,
)
    decreases s.len() - pos, 10int,
{
    match spec_parse_operator(s, pos) {
        None => (pos, acc),
        Some((p1, op)) => match crate::parser::expression::spec_parse_term(s, p1) {
            None => (pos, acc),
            Some((p2, t)) => if p1 < p2 <= s.len() {
                spec_terms_tail(s, p2, seq![(op, t)] + acc)
            } else {
                (pos, acc)
            },
        },
    }
}

/// The whole flat term sequence at `pos`: the leftmost term, then
/// every following (operator, term) pair.
pub open spec fn spec_parse_terms(s: Seq<char>, pos: int) -> Option<(int, SpecTerms)>
    decreases s.len() - pos, 11int,
{
    match crate::parser::expression::spec_parse_term(s, pos) {
        None => None,
        Some((p1, left_term)) => {
            let p1b = spec_bounded(p1, pos, s.len() as int);
            let (p2, right) = spec_terms_tail(s, p1b, Seq::empty());
            Some((p2, SpecTerms { left_term, right }))
        },
    }
}

/// Reduces a term sequence to one expression tree by binding powers.
/// The pairs stand in reverse source order, so the last pair of the
/// sequence is the leftmost in the source. For each pair: when its
/// operator's right power is below the left power of the next pending
/// operator (or below the sentinel 255 when none remains), the rest of
/// the sequence first becomes that term's right subtree; otherwise the
/// pair combines at once with the expression on the left.
pub open spec fn spec_reduce(left: SpecExpression, right: Seq<(Operator, SpecExpression)>)
    -> SpecExpression
    decreases right.len(),
{
    if right.len() == 0 {
        left
    } else {
        let (op, right_term) = right.last();
        let rest = right.drop_last();
        let left_bp = spec_binding_powers(op).1;
        let right_bp: u8 = if rest.len() > 0 {
            spec_binding_powers(rest.last().0).0
        } else {
            255
        };
        if left_bp < right_bp {
            SpecExpression::Binary(
                SpecBinary {
                    left: Box::new(left),
                    operator: op,
                    right: Box::new(spec_reduce(right_term, rest)),
                },
            )
        } else {
            spec_reduce(
                SpecExpression::Binary(
                    SpecBinary { left: Box::new(left), operator: op, right: Box::new(right_term) },
                ),
                rest,
            )
        }
    }
}

/// Reads the (operator, term) pairs from `pos` on, prepending each to
/// `acc`; cannot fail.
fn parse_terms_tail(input: &[char], pos: usize, acc: Vec<(Operator, Expression)>) -> (r: (
    usize,
    Vec<(Operator, Expression)>,
))
    requires
        pos <= input@.len(),
    ensures
        spec_terms_tail(input@, pos as int, view_pair_seq(acc@)) == (
            r.0 as int,
            view_pair_seq(r.1@),
        ),
        pos <= r.0 <= input@.len(),
    decreases input@.len() - pos, 10int,
{
    match Operator::parse(input, pos) {
        Err(_) => (pos, acc),
        Ok((p1, op)) => match crate::parser::expression::Expression::parse_term(input, p1) {
            Err(_) => (pos, acc),
            Ok((p2, t)) => {
                let mut acc2 = acc;
                acc2.insert(0, (op, t));
                proof {
                    assert(view_pair_seq(acc2@) =~= seq![(op, view_expression(t))] + view_pair_seq(
                        acc@,
                    ));
                }
                parse_terms_tail(input, p2, acc2)
            },
        },
    }
}

impl Terms {
    /// Reads the flat term sequence at `pos`: one unary term, then any
    /// number of (operator, term) pairs.
    pub fn parse(input: &[char], pos: usize) -> (r: Result<(usize, Terms), ParseError>)
        requires
            pos <= input@.len(),
        ensures
            match r {
                Ok((p2, t)) => spec_parse_terms(input@, pos as int) == Some((p2 as int, t@)) && pos
                    < p2 <= input@.len(),
                Err(e) => spec_parse_terms(input@, pos as int) is None && e.offset
                    <= input@.len(),
            },
        decreases input@.len() - pos, 11int,
    {
        match crate::parser::expression::Expression::parse_term(input, pos) {
            Err(e) => Err(e),
            Ok((p1, left_term)) => {
                proof {
                    assert(view_pair_seq(Seq::<(Operator, Expression)>::empty()) =~= Seq::<
                        (Operator, SpecExpression),
                    >::empty());
                }
                let (p2, right) = parse_terms_tail(input, p1, Vec::new());
                Ok((p2, Terms { left_term, right }))
            },
        }
    }

    /// Reduces this term sequence to one expression.
    pub fn reduce(self) -> (e: Expression)
        ensures
            e@ == spec_reduce(self@.left_term, self@.right),
        decreases self.right@.len(),
    {
        let ghost v = self@.right;
        let Terms { left_term, mut right } = self;
        let ghost orig = right@;
        let popped = right.pop();
        match popped {
            None => {
                proof {
                    assert(v == view_pair_seq(orig));
                    assert(v.len() == 0);
                }
                left_term
            },
            Some((op, right_term)) => {
                proof {
                    assert((op, right_term) == orig[orig.len() - 1]);
                    assert(v.last() == (op, view_expression(right_term)));
                    assert(view_pair_seq(right@) =~= v.drop_last());
                }
                let left_bp = op.binding_powers().1;
                let right_bp: u8 = if right.len() > 0 {
                    let idx = right.len() - 1;
                    let pair = &right[idx];
                    pair.0.binding_powers().0
                } else {
                    255
                };
                if left_bp < right_bp {
                    let inner = Terms { left_term: right_term, right }.reduce();
                    Expression::Binary(
                        crate::parser::expression::binary::Binary {
                            left: Box::new(left_term),
                            operator: op,
                            right: Box::new(inner),
                        },
                    )
                } else {
                    Terms {
                        left_term: Expression::Binary(
                            crate::parser::expression::binary::Binary {
                                left: Box::new(left_term),
                                operator: op,
                                right: Box::new(right_term),
                            },
                        ),
                        right,
                    }.reduce()
                }
            },
        }
    }
}

} // verus!
