use vstd::prelude::*;

use crate::parser::expression::{spec_parse_expression, view_expression, Expression, SpecExpression};
use crate::parser::identifier::{spec_parse_identifier, Identifier};
use crate::parser::types::{spec_parse_type, Type};
use crate::parser::whitespace;
use crate::parser::{spec_bounded, ParseError};

verus! {

/// A function literal: a parenthesized parameter list, a return type,
/// and a body expression in braces.
#[derive(Debug, PartialEq, Eq)]
pub struct Function {
    pub parameters: Parameters,
    pub return_type: Type,
    pub body: Box<Expression>,
}

/// The mathematical content of a `Function`: each parameter is the
/// pair of its type name and its name.
pub struct SpecFunction {
    pub parameters: Seq<(Seq<char>, Seq<char>)>,
    pub return_type: Seq<char>,
    pub body: Box<SpecExpression>,
}

/// The parameter list of a function literal: (type, name) pairs in
/// source order.
#[derive(Debug, PartialEq, Eq)]
pub struct Parameters(pub Vec<(Type, Identifier)>);

/// The mathematical content of a parameter sequence, elementwise.
pub open spec fn view_parameter_seq(s: Seq<(Type, Identifier)>) -> Seq<(Seq<char>, Seq<char>)> {
    s.map_values(|p: (Type, Identifier)| (p.0@, p.1@))
}

impl View for Parameters {
    type V = Seq<(Seq<char>, Seq<char>)>;

    open spec fn view(&self) -> Seq<(Seq<char>, Seq<char>)> {
        view_parameter_seq(self.0@)
    }
}

impl View for Function {
    type V = SpecFunction;

    open spec fn view(&self) -> SpecFunction {
        SpecFunction {
            parameters: self.parameters@,
            return_type: self.return_type@,
            body: Box::new(view_expression(*self.body)),
        }
    }
}

/// One parameter at `pos`: a type name, required whitespace, and the
/// parameter's name.
pub open spec fn spec_parse_parameter(s: Seq<char>, pos: int) -> Option<
    (int, (Seq<char>, Seq<char>)),
> {
    match spec_parse_type(s, pos) {
        None => None,
        Some((p1, ty)) => {
            let p1b = spec_bounded(p1, pos, s.len() as int);
            if whitespace::spec_skip_ws(s, p1b) != p1b {
                let q = spec_bounded(whitespace::spec_skip_ws(s, p1b), p1b, s.len() as int);
                match spec_parse_identifier(s, q) {
                    Some((p2, id)) => Some((p2, (ty, id))),
                    None => None,
                }
            } else {
                None
            }
        },
    }
}

/// A parameter separator at `pos`: a comma between optional
/// whitespace. Yields the position after it.
pub open spec fn spec_parse_separator(s: Seq<char>, pos: int) -> Option<int> {
    let q = spec_bounded(whitespace::spec_skip_ws(s, pos), pos, s.len() as int);
    if q < s.len() && s[q] == ',' {
        Some(spec_bounded(whitespace::spec_skip_ws(s, q + 1), q + 1, s.len() as int))
    } else {
        None
    }
}

/// The (separator, parameter) continuations of a parameter list from
/// `pos` on, appended to `acc`; cannot fail. A separator followed by
/// no parameter is left unconsumed here.
pub open spec fn spec_parameter_list_tail(
    s: Seq<char>,
    pos: int,
    acc: Seq<(Seq<char>, Seq<char>)>,
) -> (int, Seq<(Seq<char>, Seq<char>)>)
    decreases s.len() - pos,
{
    match spec_parse_separator(s, pos) {
        None => (pos, acc),
        Some(q) => match spec_parse_parameter(s, q) {
            None => (pos, acc),
            Some((p2, param)) => if pos < p2 <= s.len() {
                spec_parameter_list_tail(s, p2, acc.push(param))
            } else {
                (pos, acc)
            },
        },
    }
}

/// A whole parameter list at `pos`: parameters separated by commas,
/// possibly empty, with an optional trailing separator; cannot fail.
pub open spec fn spec_parse_parameters(s: Seq<char>, pos: int) -> (int, Seq<
    (Seq<char>, Seq<char>),
>) {
    match spec_parse_parameter(s, pos) {
        None => match spec_parse_separator(s, pos) {
            Some(q) => (q, Seq::empty()),
            None => (pos, Seq::empty()),
        },
        Some((p1, param)) => {
            let p1b = spec_bounded(p1, pos, s.len() as int);
            let (p2, params) = spec_parameter_list_tail(s, p1b, seq![param]);
            let p2b = spec_bounded(p2, p1b, s.len() as int);
            match spec_parse_separator(s, p2b) {
                Some(q) => (q, params),
                None => (p2b, params),
            }
        },
    }
}

/// A function literal at `pos`: optional whitespace around `fn`, a
/// parenthesized parameter list, `->`, a return type, and a body
/// expression in braces, with optional whitespace between all tokens
/// and after the closing brace.
pub open spec fn spec_parse_function(s: Seq<char>, pos: int) -> Option<(int, SpecFunction)>
    decreases s.len() - pos, 3int,
{
    let q0 = spec_bounded(whitespace::spec_skip_ws(s, pos), pos, s.len() as int);
    if q0 + 2 <= s.len() && s[q0] == 'f' && s[q0 + 1] == 'n' {
        let q1 = spec_bounded(whitespace::spec_skip_ws(s, q0 + 2), q0 + 2, s.len() as int);
        if q1 < s.len() && s[q1] == '(' {
            let q2 = spec_bounded(whitespace::spec_skip_ws(s, q1 + 1), q1 + 1, s.len() as int);
            let (p1, parameters) = spec_parse_parameters(s, q2);
            let p1b = spec_bounded(p1, q2, s.len() as int);
            let q3 = spec_bounded(whitespace::spec_skip_ws(s, p1b), p1b, s.len() as int);
            if q3 < s.len() && s[q3] == ')' {
                let q4 = spec_bounded(whitespace::spec_skip_ws(s, q3 + 1), q3 + 1, s.len() as int);
                if q4 + 2 <= s.len() && s[q4] == '-' && s[q4 + 1] == '>' {
                    let q5 = spec_bounded(
                        whitespace::spec_skip_ws(s, q4 + 2),
                        q4 + 2,
                        s.len() as int,
                    );
                    match spec_parse_type(s, q5) {
                        None => None,
                        Some((p2, return_type)) => {
                            let p2b = spec_bounded(p2, q5, s.len() as int);
                            let q6 = spec_bounded(
                                whitespace::spec_skip_ws(s, p2b),
                                p2b,
                                s.len() as int,
                            );
                            if q6 < s.len() && s[q6] == '{' {
                                match spec_parse_expression(s, q6 + 1) {
                                    None => None,
                                    Some((p3, body)) => if 0 <= p3 < s.len() && s[p3] == '}' {
                                        Some(
                                            (
                                                whitespace::spec_skip_ws(s, p3 + 1),
                                                SpecFunction {
                                                    parameters,
                                                    return_type,
                                                    body: Box::new(body),
                                                },
                                            ),
                                        )
                                    } else {
                                        None
                                    },
                                }
                            } else {
                                None
                            }
                        },
                    }
                } else {
                    None
                }
            } else {
                None
            }
        } else {
            None
        }
    } else {
        None
    }
}

/// Reads one parameter at `pos`.
fn parse_parameter(input: &[char], pos: usize) -> (r: Result<
    (usize, (Type, Identifier)),
    ParseError,
>)
    requires
        pos <= input@.len(),
    ensures
        match r {
            Ok((p2, p)) => spec_parse_parameter(input@, pos as int) == Some(
                (p2 as int, (p.0@, p.1@)),
            ) && pos < p2 <= input@.len(),
            Err(e) => spec_parse_parameter(input@, pos as int) is None && e.offset
                    <= input@.len(),
        },
{
    match Type::parse(input, pos) {
        Err(e) => Err(e),
        Ok((p1, ty)) => {
            match whitespace::required(input, p1) {
                Err(e) => Err(e),
                Ok(q) => {
                    match Identifier::parse(input, q) {
                        Ok((p2, id)) => Ok((p2, (ty, id))),
                        Err(e) => Err(e),
                    }
                },
            }
        },
    }
}

/// Reads a parameter separator at `pos`: a comma between optional
/// whitespace.
fn parse_separator(input: &[char], pos: usize) -> (r: Option<usize>)
    requires
        pos <= input@.len(),
    ensures
        match r {
            Some(q) => spec_parse_separator(input@, pos as int) == Some(q as int) && pos < q
                <= input@.len(),
            None => spec_parse_separator(input@, pos as int) is None,
        },
{
    let q = whitespace::optional(input, pos);
    if q < input.len() && input[q] == ',' {
        Some(whitespace::optional(input, q + 1))
    } else {
        None
    }
}

/// Reads the (separator, parameter) continuations of a parameter list
/// from `pos` on, appending to `acc`; cannot fail.
fn parse_parameters_tail(input: &[char], pos: usize, acc: Vec<(Type, Identifier)>) -> (r: (
    usize,
    Vec<(Type, Identifier)>,
))
    requires
        pos <= input@.len(),
    ensures
        spec_parameter_list_tail(input@, pos as int, view_parameter_seq(acc@)) == (
            r.0 as int,
            view_parameter_seq(r.1@),
        ),
        pos <= r.0 <= input@.len(),
    decreases input@.len() - pos,
{
    match parse_separator(input, pos) {
        None => (pos, acc),
        Some(q) => match parse_parameter(input, q) {
            Err(_) => (pos, acc),
            Ok((p2, param)) => {
                let ghost old_acc = acc@;
                let ghost param_view = (param.0@, param.1@);
                let mut acc2 = acc;
                acc2.push(param);
                proof {
                    assert(view_parameter_seq(acc2@) =~= view_parameter_seq(old_acc).push(
                        param_view,
                    ));
                }
                parse_parameters_tail(input, p2, acc2)
            },
        },
    }
}

impl Parameters {
    /// Reads a whole parameter list at `pos`; cannot fail.
    pub fn parse(input: &[char], pos: usize) -> (r: (usize, Parameters))
        requires
            pos <= input@.len(),
        ensures
            spec_parse_parameters(input@, pos as int) == (r.0 as int, r.1@),
            pos <= r.0 <= input@.len(),
    {
        match parse_parameter(input, pos) {
            Err(_) => {
                let empty: Vec<(Type, Identifier)> = Vec::new();
                proof {
                    assert(view_parameter_seq(empty@) =~= Seq::<(Seq<char>, Seq<char>)>::empty());
                }
                match parse_separator(input, pos) {
                    Some(q) => (q, Parameters(empty)),
                    None => (pos, Parameters(empty)),
                }
            },
            Ok((p1, param)) => {
                let ghost param_view = (param.0@, param.1@);
                let mut first: Vec<(Type, Identifier)> = Vec::new();
                first.push(param);
                proof {
                    assert(view_parameter_seq(first@) =~= seq![param_view]);
                }
                let (p2, params) = parse_parameters_tail(input, p1, first);
                match parse_separator(input, p2) {
                    Some(q) => (q, Parameters(params)),
                    None => (p2, Parameters(params)),
                }
            },
        }
    }
}

impl Function {
    /// Reads a function literal at `pos`.
    pub fn parse(input: &[char], pos: usize) -> (r: Result<(usize, Function), ParseError>)
        requires
            pos <= input@.len(),
        ensures
            match r {
                Ok((p2, f)) => spec_parse_function(input@, pos as int) == Some((p2 as int, f@))
                    && pos < p2 <= input@.len(),
                Err(e) => spec_parse_function(input@, pos as int) is None && e.offset
                    <= input@.len(),
            },
        decreases input@.len() - pos, 3int,
    {
        let len = input.len();
        let q0 = whitespace::optional(input, pos);
        if len - q0 >= 2 && input[q0] == 'f' && input[q0 + 1] == 'n' {
            let q1 = whitespace::optional(input, q0 + 2);
            if q1 < len && input[q1] == '(' {
                let q2 = whitespace::optional(input, q1 + 1);
                let (p1, parameters) = Parameters::parse(input, q2);
                let q3 = whitespace::optional(input, p1);
                if q3 < len && input[q3] == ')' {
                    let q4 = whitespace::optional(input, q3 + 1);
                    if len - q4 >= 2 && input[q4] == '-' && input[q4 + 1] == '>' {
                        let q5 = whitespace::optional(input, q4 + 2);
                        match Type::parse(input, q5) {
                            Err(e) => Err(e),
                            Ok((p2, return_type)) => {
                                let q6 = whitespace::optional(input, p2);
                                if q6 < len && input[q6] == '{' {
                                    match Expression::parse(input, q6 + 1) {
                                        Err(e) => Err(e),
                                        Ok((p3, body)) => {
                                            if p3 < len && input[p3] == '}' {
                                                Ok(
                                                    (
                                                        whitespace::optional(input, p3 + 1),
                                                        Function {
                                                            parameters,
                                                            return_type,
                                                            body: Box::new(body),
                                                        },
                                                    ),
                                                )
                                            } else {
                                                Err(ParseError::at(p3))
                                            }
                                        },
                                    }
                                } else {
                                    Err(ParseError::at(q6))
                                }
                            },
                        }
                    } else {
                        Err(ParseError::at(q4))
                    }
                } else {
                    Err(ParseError::at(q3))
                }
            } else {
                Err(ParseError::at(q1))
            }
        } else {
            Err(ParseError::at(q0))
        }
    }
}

} // verus!
