use vstd::prelude::*;

use crate::parser::expression::{
    lemma_view_assignment_seq, spec_parse_expression, view_assignment_seq, view_expression,
    Expression, SpecExpression,
};
use crate::parser::identifier::{spec_parse_identifier, Identifier};
use crate::parser::whitespace;
use crate::parser::{spec_bounded, ParseError};

verus! {

/// A let-in expression: one or more assignments bound between `let`
/// and `in`, then the body they scope over.
#[derive(Debug, PartialEq, Eq)]
pub struct LetIn {
    pub assignments: Vec<Assignment>,
    pub expression: Box<Expression>,
}

/// The mathematical content of a `LetIn`.
pub struct SpecLetIn {
    pub assignments: Seq<SpecAssignment>,
    pub expression: Box<SpecExpression>,
}

/// One binding of a let-in: an identifier, `=`, and the bound
/// expression.
#[derive(Debug, PartialEq, Eq)]
pub struct Assignment {
    pub identifier: Identifier,
    pub value: Expression,
}

/// The mathematical content of an `Assignment`.
pub struct SpecAssignment {
    pub identifier: Seq<char>,
    pub value: SpecExpression,
}

impl View for Assignment {
    type V = SpecAssignment;

    open spec fn view(&self) -> SpecAssignment {
        SpecAssignment { identifier: self.identifier@, value: view_expression(self.value) }
    }
}

impl View for LetIn {
    type V = SpecLetIn;

    open spec fn view(&self) -> SpecLetIn {
        SpecLetIn {
            assignments: view_assignment_seq(self.assignments@),
            expression: Box::new(view_expression(*self.expression)),
        }
    }
}

/// One assignment at `pos`: an identifier, optional whitespace, `=`,
/// optional whitespace, and an expression.
pub open spec fn spec_parse_assignment(s: Seq<char>, pos: int) -> Option<(int, SpecAssignment)>
    decreases s.len() - pos, 1int,
{
    match spec_parse_identifier(s, pos) {
        None => None,
        Some((p1, id)) => {
            let p1b = spec_bounded(p1, pos, s.len() as int);
            let q1 = spec_bounded(whitespace::spec_skip_ws(s, p1b), p1b, s.len() as int);
            if q1 < s.len() && s[q1] == '=' {
                let q2 = spec_bounded(whitespace::spec_skip_ws(s, q1 + 1), q1 + 1, s.len() as int);
                match spec_parse_expression(s, q2) {
                    Some((p2, v)) => Some((p2, SpecAssignment { identifier: id, value: v })),
                    None => None,
                }
            } else {
                None
            }
        },
    }
}

/// The run of assignments from `pos` on, appended to `acc`; cannot
/// fail. Stops where no further assignment matches — in particular at
/// the reserved word `in`, which no identifier can be.
pub open spec fn spec_assignment_list(s: Seq<char>, pos: int, acc: Seq<SpecAssignment>) -> (
    int,
    Seq<SpecAssignment>,
)
    decreases s.len() - pos, 2int,
{
    match spec_parse_assignment(s, pos) {
        Some((p2, a)) => if pos < p2 <= s.len() {
            spec_assignment_list(s, p2, acc.push(a))
        } else {
            (pos, acc)
        },
        None => (pos, acc),
    }
}

/// A let-in at `pos`: optional whitespace, `let`, optional
/// whitespace, one or more assignments, `in` between optional
/// whitespace, and the body expression.
pub open spec fn spec_parse_let_in(s: Seq<char>, pos: int) -> Option<(int, SpecLetIn)>
    decreases s.len() - pos, 3int,
{
    let q0 = spec_bounded(whitespace::spec_skip_ws(s, pos), pos, s.len() as int);
    if q0 + 3 <= s.len() && s[q0] == 'l' && s[q0 + 1] == 'e' && s[q0 + 2] == 't' {
        let q1 = spec_bounded(whitespace::spec_skip_ws(s, q0 + 3), q0 + 3, s.len() as int);
        let (p1, assignments) = spec_assignment_list(s, q1, Seq::empty());
        if assignments.len() > 0 {
            let p1b = spec_bounded(p1, q1, s.len() as int);
            let q2 = spec_bounded(whitespace::spec_skip_ws(s, p1b), p1b, s.len() as int);
            if q2 + 2 <= s.len() && s[q2] == 'i' && s[q2 + 1] == 'n' {
                let q3 = spec_bounded(whitespace::spec_skip_ws(s, q2 + 2), q2 + 2, s.len() as int);
                match spec_parse_expression(s, q3) {
                    Some((p2, body)) => Some(
                        (p2, SpecLetIn { assignments, expression: Box::new(body) }),
                    ),
                    None => None,
                }
            } else {
                None
            }
        } else {
            None
        }
    } else {
        None
    }
}

/// Reads the run of assignments from `pos` on, appending to `acc`;
/// cannot fail.
fn parse_assignments(input: &[char], pos: usize, acc: Vec<Assignment>) -> (r: (
    usize,
    Vec<Assignment>,
))
    requires
        pos <= input@.len(),
    ensures
        spec_assignment_list(input@, pos as int, view_assignment_seq(acc@)) == (
            r.0 as int,
            view_assignment_seq(r.1@),
        ),
        pos <= r.0 <= input@.len(),
    decreases input@.len() - pos, 2int,
{
    match Assignment::parse(input, pos) {
        Err(_) => (pos, acc),
        Ok((p2, a)) => {
            let ghost old_acc = acc@;
            let ghost a_view = a@;
            let mut acc2 = acc;
            acc2.push(a);
            proof {
                lemma_view_assignment_seq(old_acc);
                lemma_view_assignment_seq(acc2@);
                assert(view_assignment_seq(acc2@) =~= view_assignment_seq(old_acc).push(a_view));
            }
            parse_assignments(input, p2, acc2)
        },
    }
}

impl Assignment {
    /// Reads one assignment at `pos`.
    pub fn parse(input: &[char], pos: usize) -> (r: Result<(usize, Assignment), ParseError>)
        requires
            pos <= input@.len(),
        ensures
            match r {
                Ok((p2, a)) => spec_parse_assignment(input@, pos as int) == Some((p2 as int, a@))
                    && pos < p2 <= input@.len(),
                Err(e) => spec_parse_assignment(input@, pos as int) is None && e.offset
                    <= input@.len(),
            },
        decreases input@.len() - pos, 1int,
    {
        match Identifier::parse(input, pos) {
            Err(e) => Err(e),
            Ok((p1, identifier)) => {
                let q1 = whitespace::optional(input, p1);
                if q1 < input.len() && input[q1] == '=' {
                    let q2 = whitespace::optional(input, q1 + 1);
                    match Expression::parse(input, q2) {
                        Ok((p2, value)) => Ok((p2, Assignment { identifier, value })),
                        Err(e) => Err(e),
                    }
                } else {
                    Err(ParseError::at(q1))
                }
            },
        }
    }
}

impl LetIn {
    /// Reads a let-in at `pos`.
    pub fn parse(input: &[char], pos: usize) -> (r: Result<(usize, LetIn), ParseError>)
        requires
            pos <= input@.len(),
        ensures
            match r {
                Ok((p2, l)) => spec_parse_let_in(input@, pos as int) == Some((p2 as int, l@))
                    && pos < p2 <= input@.len(),
                Err(e) => spec_parse_let_in(input@, pos as int) is None && e.offset
                    <= input@.len(),
            },
        decreases input@.len() - pos, 3int,
    {
        let len = input.len();
        let q0 = whitespace::optional(input, pos);
        if len - q0 >= 3 && input[q0] == 'l' && input[q0 + 1] == 'e' && input[q0 + 2] == 't' {
            let q1 = whitespace::optional(input, q0 + 3);
            proof {
                lemma_view_assignment_seq(Seq::<Assignment>::empty());
                assert(view_assignment_seq(Seq::<Assignment>::empty()) =~= Seq::<
                    SpecAssignment,
                >::empty());
            }
            let (p1, assignments) = parse_assignments(input, q1, Vec::new());
            proof {
                lemma_view_assignment_seq(assignments@);
            }
            if assignments.len() > 0 {
                let q2 = whitespace::optional(input, p1);
                if len - q2 >= 2 && input[q2] == 'i' && input[q2 + 1] == 'n' {
                    let q3 = whitespace::optional(input, q2 + 2);
                    match Expression::parse(input, q3) {
                        Ok((p2, body)) => Ok(
                            (p2, LetIn { assignments, expression: Box::new(body) }),
                        ),
                        Err(e) => Err(e),
                    }
                } else {
                    Err(ParseError::at(q2))
                }
            } else {
                Err(ParseError::at(q1))
            }
        } else {
            Err(ParseError::at(q0))
        }
    }
}

} // verus!
