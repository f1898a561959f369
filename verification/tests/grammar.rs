use exprlang::parser::expression::binary::{Binary, Operator};
use exprlang::parser::expression::pratt::Terms;
use exprlang::parser::expression::unary::{Operator as UnaryOperator, Term, Unary};
use exprlang::parser::expression::Expression;
use exprlang::parser::function::{Function, Parameters};
use exprlang::parser::identifier::Identifier;
use exprlang::parser::let_in::{Assignment, LetIn};
use exprlang::parser::literal::boolean::Boolean;
use exprlang::parser::literal::character::Character;
use exprlang::parser::literal::number::integer::Integer;
use exprlang::parser::literal::number::{Base, Sign};
use exprlang::parser::literal::string::Str;
use exprlang::parser::literal::Literal;
use exprlang::parser::types::Type;
use exprlang::parser::whitespace;

fn chars(s: &str) -> Vec<char> {
    s.chars().collect()
}

fn character(c: char) -> Expression {
    Expression::Literal(Literal::Character(Character(c)))
}

fn integer(digits: Vec<u8>) -> Expression {
    Expression::Literal(Literal::Integer(Integer {
        base: Base::Decimal,
        digits,
        sign: Sign::Positive,
    }))
}

fn identifier(name: &str) -> Identifier {
    Identifier(String::from(name))
}

#[test]
fn expression_parses() {
    let v = chars(" \n true ");
    assert_eq!(
        Expression::parse(&v, 0),
        Ok((v.len(), Expression::Literal(Literal::Boolean(Boolean(true)))))
    );
}

#[test]
fn terms_parse() {
    let v = chars("'a' + 'b' - 'c'");
    assert_eq!(
        Terms::parse(&v, 0),
        Ok((
            v.len(),
            Terms {
                left_term: character('a'),
                right: vec![
                    (Operator::Subtract, character('c')),
                    (Operator::Add, character('b')),
                ]
            }
        ))
    );
}

#[test]
fn terms_reduce() {
    let v = chars("'a' + 'b' * 'c'");
    let terms = Terms::parse(&v, 0).unwrap().1;
    assert_eq!(
        terms.reduce(),
        Expression::Binary(Binary {
            left: Box::new(character('a')),
            operator: Operator::Add,
            right: Box::new(Expression::Binary(Binary {
                left: Box::new(character('b')),
                operator: Operator::Multiply,
                right: Box::new(character('c'))
            }))
        })
    );
}

#[test]
fn term_parses() {
    let v = chars("!\"a\"[1]");
    assert_eq!(
        Term::parse(&v, 0),
        Ok((
            v.len(),
            Term {
                prefix_operators: vec![UnaryOperator::Not],
                expression: Expression::Literal(Literal::String(Str(String::from("a")))),
                postfix_operators: vec![UnaryOperator::Access(Box::new(integer(vec![1])))]
            }
        ))
    );
}

#[test]
fn term_reduces() {
    let v = chars("!\"a\"[1]");
    let (rest, term) = Term::parse(&v, 0).unwrap();
    assert_eq!(rest, v.len());
    assert_eq!(
        term.reduce(),
        Expression::Unary(Unary {
            operator: UnaryOperator::Not,
            expression: Box::new(Expression::Unary(Unary {
                operator: UnaryOperator::Access(Box::new(integer(vec![1]))),
                expression: Box::new(Expression::Literal(Literal::String(Str(String::from(
                    "a"
                )))))
            }))
        })
    );
}

#[test]
fn function_parses() {
    let v = chars("fn(Int64 x, Int64 y) -> Int64 { 1 }");
    assert_eq!(
        Function::parse(&v, 0),
        Ok((
            v.len(),
            Function {
                parameters: Parameters(vec![
                    (Type(identifier("Int64")), identifier("x")),
                    (Type(identifier("Int64")), identifier("y")),
                ]),
                return_type: Type(identifier("Int64")),
                body: Box::new(integer(vec![1]))
            }
        ))
    );
}

#[test]
fn parameters_parse() {
    let v = chars("Int64 x, Int64 y");
    assert_eq!(
        Parameters::parse(&v, 0),
        (
            v.len(),
            Parameters(vec![
                (Type(identifier("Int64")), identifier("x")),
                (Type(identifier("Int64")), identifier("y")),
            ])
        )
    );
}

#[test]
fn identifiers_parse() {
    let v = chars("abc");
    assert_eq!(Identifier::parse(&v, 0), Ok((3, identifier("abc"))));

    let v = chars("a_b_c;");
    assert_eq!(Identifier::parse(&v, 0), Ok((5, identifier("a_b_c"))));

    let v = chars("é");
    assert_eq!(Identifier::parse(&v, 0), Ok((1, identifier("é"))));

    let v = chars(";");
    assert!(Identifier::parse(&v, 0).is_err());

    let v = chars("in");
    assert!(Identifier::parse(&v, 0).is_err());
}

#[test]
fn let_in_parses() {
    let v = chars("let a_useless_value = 1 in 1");
    assert_eq!(
        LetIn::parse(&v, 0),
        Ok((
            v.len(),
            LetIn {
                assignments: vec![Assignment {
                    identifier: identifier("a_useless_value"),
                    value: integer(vec![1])
                }],
                expression: Box::new(integer(vec![1]))
            }
        ))
    );
}

#[test]
fn assignment_parses() {
    let v = chars("a = 1");
    assert_eq!(
        Assignment::parse(&v, 0),
        Ok((5, Assignment { identifier: identifier("a"), value: integer(vec![1]) }))
    );
}

#[test]
fn type_parses() {
    let v = chars("Int64");
    assert_eq!(Type::parse(&v, 0), Ok((5, Type(identifier("Int64")))));
}

#[test]
fn whitespace_parses() {
    let v = chars(" \n \n \r\n \t");
    assert_eq!(whitespace::optional(&v, 0), v.len());

    let v = chars(" // comment \n ");
    assert_eq!(whitespace::optional(&v, 0), v.len());

    let v = chars(" /* comment */ abc");
    assert_eq!(whitespace::optional(&v, 0), v.len() - 3);
}
