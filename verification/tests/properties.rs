use exprlang::parser::expression::binary::{Binary, Operator};
use exprlang::parser::expression::unary::{Operator as UnaryOperator, Unary};
use exprlang::parser::expression::Expression;
use exprlang::parser::identifier::Identifier;
use exprlang::parser::let_in::{Assignment, LetIn};
use exprlang::parser::line_column;
use exprlang::parser::literal::character::Character;
use exprlang::parser::literal::number::integer::Integer;
use exprlang::parser::literal::number::{Base, Sign};
use exprlang::parser::literal::string::Str;
use exprlang::parser::literal::Literal;
use exprlang::parser::types::Type;
use exprlang::parser::function::Parameters;
use exprlang::parser::Context;

fn chars(s: &str) -> Vec<char> {
    s.chars().collect()
}

fn integer(digits: Vec<u8>) -> Expression {
    Expression::Literal(Literal::Integer(Integer {
        base: Base::Decimal,
        digits,
        sign: Sign::Positive,
    }))
}

fn character(c: char) -> Expression {
    Expression::Literal(Literal::Character(Character(c)))
}

fn binary(left: Expression, operator: Operator, right: Expression) -> Expression {
    Expression::Binary(Binary { left: Box::new(left), operator, right: Box::new(right) })
}

#[test]
fn precedence() {
    let v = chars("1 + 2 * 3");
    let (rest, e) = Expression::parse(&v, 0).unwrap();
    assert_eq!(rest, v.len());
    assert_eq!(
        e,
        binary(
            integer(vec![1]),
            Operator::Add,
            binary(integer(vec![2]), Operator::Multiply, integer(vec![3]))
        )
    );
}

#[test]
fn right_associativity() {
    let v = chars("2 ** 3 ** 2");
    let (rest, e) = Expression::parse(&v, 0).unwrap();
    assert_eq!(rest, v.len());
    assert_eq!(
        e,
        binary(
            integer(vec![2]),
            Operator::Exponent,
            binary(integer(vec![3]), Operator::Exponent, integer(vec![2]))
        )
    );
}

#[test]
fn left_associativity() {
    let v = chars("'a' + 'b' - 'c'");
    let (rest, e) = Expression::parse(&v, 0).unwrap();
    assert_eq!(rest, v.len());
    assert_eq!(
        e,
        binary(
            binary(character('a'), Operator::Add, character('b')),
            Operator::Subtract,
            character('c')
        )
    );
}

#[test]
fn postfix_binds_tighter_than_prefix() {
    let v = chars("!\"a\"[1]");
    let (rest, e) = Expression::parse(&v, 0).unwrap();
    assert_eq!(rest, v.len());
    assert_eq!(
        e,
        Expression::Unary(Unary {
            operator: UnaryOperator::Not,
            expression: Box::new(Expression::Unary(Unary {
                operator: UnaryOperator::Access(Box::new(integer(vec![1]))),
                expression: Box::new(Expression::Literal(Literal::String(Str(String::from(
                    "a"
                )))))
            }))
        })
    );
}

#[test]
fn reserved_word_fails() {
    let v = chars("in");
    assert!(Identifier::parse(&v, 0).is_err());
    assert!(Expression::parse(&v, 0).is_err());
}

#[test]
fn determinism() {
    let v = chars("let x = 1 in x ** 2 + f(-3)[0]");
    let first = Expression::parse(&v, 0);
    let second = Expression::parse(&v, 0);
    assert_eq!(first, second);
}

#[test]
fn leftover_input() {
    let v = chars("abc;");
    let (rest, id) = Identifier::parse(&v, 0).unwrap();
    assert_eq!(id, Identifier(String::from("abc")));
    assert_eq!(rest, 3);
    assert_eq!(v[rest..], [';']);
}

#[test]
fn let_in_end_to_end() {
    let v = chars("let x = 1 in x");
    let (rest, e) = Expression::parse(&v, 0).unwrap();
    assert_eq!(rest, v.len());
    assert_eq!(
        e,
        Expression::LetIn(LetIn {
            assignments: vec![Assignment {
                identifier: Identifier(String::from("x")),
                value: integer(vec![1])
            }],
            expression: Box::new(Expression::Identifier(Identifier(String::from("x"))))
        })
    );
}

#[test]
fn function_end_to_end() {
    let v = chars("fn(Int64 x) -> Int64 { x }");
    let (rest, e) = Expression::parse(&v, 0).unwrap();
    assert_eq!(rest, v.len());
    match e {
        Expression::Function(f) => {
            assert_eq!(
                f.parameters,
                Parameters(vec![(
                    Type(Identifier(String::from("Int64"))),
                    Identifier(String::from("x"))
                )])
            );
            assert_eq!(f.return_type, Type(Identifier(String::from("Int64"))));
            assert_eq!(
                *f.body,
                Expression::Identifier(Identifier(String::from("x")))
            );
        },
        other => panic!("expected a function literal, got {:?}", other),
    }
}

#[test]
fn call_and_access_postfixes() {
    let v = chars("a(1)[0]");
    let (rest, e) = Expression::parse(&v, 0).unwrap();
    assert_eq!(rest, v.len());
    assert_eq!(
        e,
        Expression::Unary(Unary {
            operator: UnaryOperator::Access(Box::new(integer(vec![0]))),
            expression: Box::new(Expression::Unary(Unary {
                operator: UnaryOperator::Call(vec![integer(vec![1])]),
                expression: Box::new(Expression::Identifier(Identifier(String::from("a"))))
            }))
        })
    );
}

#[test]
fn prefix_stacking() {
    let v = chars("--1");
    let (rest, e) = Expression::parse(&v, 0).unwrap();
    assert_eq!(rest, v.len());
    assert_eq!(
        e,
        Expression::Unary(Unary {
            operator: UnaryOperator::Negate,
            expression: Box::new(Expression::Unary(Unary {
                operator: UnaryOperator::Negate,
                expression: Box::new(integer(vec![1]))
            }))
        })
    );
}

#[test]
fn empty_digit_run_is_failure() {
    let v = chars("0x");
    assert!(Integer::parse(&v, 0).is_err());
    let v = chars("");
    assert!(Integer::parse(&v, 0).is_err());
}

#[test]
fn unclosed_literals_fail() {
    let v = chars("\"abc");
    assert!(Str::parse(&v, 0).is_err());
    let v = chars("'a");
    assert!(Character::parse(&v, 0).is_err());
    let v = chars("(1");
    assert!(Expression::parse(&v, 0).is_err());
}

#[test]
fn underscore_separators_are_discarded() {
    let v = chars("1_000");
    assert_eq!(
        Integer::parse(&v, 0),
        Ok((
            5,
            Integer { base: Base::Decimal, digits: vec![1, 0, 0, 0], sign: Sign::Positive }
        ))
    );
}

#[test]
fn keyword_prefixes_backtrack() {
    // Words beginning like keywords fall back to identifiers.
    let v = chars("lettuce");
    let (rest, e) = Expression::parse(&v, 0).unwrap();
    assert_eq!(rest, v.len());
    assert_eq!(e, Expression::Identifier(Identifier(String::from("lettuce"))));

    let v = chars("fnord");
    let (rest, e) = Expression::parse(&v, 0).unwrap();
    assert_eq!(rest, v.len());
    assert_eq!(e, Expression::Identifier(Identifier(String::from("fnord"))));
}

#[test]
fn nested_groups() {
    let v = chars("((1))");
    let (rest, e) = Expression::parse(&v, 0).unwrap();
    assert_eq!(rest, v.len());
    assert_eq!(e, integer(vec![1]));
}

#[test]
fn exponent_only_in_decimal() {
    // In a hexadecimal float the letter `e` is a digit, not an
    // exponent marker.
    let v = chars("0x1.1e1");
    let (rest, f) = exprlang::parser::literal::number::float::Float::parse(&v, 0).unwrap();
    assert_eq!(rest, v.len());
    assert_eq!(f.base, Base::Hexadecimal);
    assert_eq!(f.fractional, vec![1, 14, 1]);
    assert_eq!(f.exponent, None);
}

#[test]
fn error_context_stack() {
    let v = chars("@");
    let e = Expression::parse(&v, 0).unwrap_err();
    assert!(!e.frames.is_empty());
    assert_eq!(e.frames.last().unwrap(), &(Context::BinaryOperations, 0));
}

#[test]
fn error_labels() {
    assert_eq!(Context::Literal.label(), "literal");
    assert_eq!(Context::Group.label(), "group");
    assert_eq!(Context::Identifier.label(), "identifier");
    assert_eq!(Context::LetIn.label(), "let-in");
    assert_eq!(Context::Function.label(), "function");
    assert_eq!(Context::BinaryOperations.label(), "binary operations");
    assert_eq!(Context::UnaryOperations.label(), "unary operations");
}

#[test]
fn error_location() {
    let v = chars("ab\ncd");
    assert_eq!(line_column(&v, 0), (1, 1));
    assert_eq!(line_column(&v, 2), (1, 3));
    assert_eq!(line_column(&v, 3), (2, 1));
    assert_eq!(line_column(&v, 4), (2, 2));
}

#[test]
fn comments_are_whitespace() {
    let v = chars("1 /* inner */ + // eol\n 2");
    let (rest, e) = Expression::parse(&v, 0).unwrap();
    assert_eq!(rest, v.len());
    assert_eq!(e, binary(integer(vec![1]), Operator::Add, integer(vec![2])));
}
