use exprlang::parser::literal::boolean::Boolean;
use exprlang::parser::literal::character::Character;
use exprlang::parser::literal::number::float::{Exponent, Float};
use exprlang::parser::literal::number::integer::Integer;
use exprlang::parser::literal::number::{Base, Sign};
use exprlang::parser::literal::string::Str;
use exprlang::parser::literal::Literal;

fn chars(s: &str) -> Vec<char> {
    s.chars().collect()
}

/// The materialization rule for float literals: fold the whole digits
/// most significant first as `value * base + digit`, the fractional
/// digits with place values `base^-1, base^-2, ...`, apply the sign by
/// sign-copy, and multiply by ten to the exponent's own value.
fn float_value(f: &Float) -> f64 {
    let base = f64::from(f.base.radix());
    let mut whole = 0.0f64;
    for d in &f.whole {
        whole = whole * base + f64::from(*d);
    }
    let mut fractional = 0.0f64;
    let mut place = 1.0f64 / base;
    for d in &f.fractional {
        fractional += f64::from(*d) * place;
        place /= base;
    }
    let exponent = f.exponent.as_ref().map_or(1.0, |e| 10f64.powf(exponent_value(e)));
    (whole + fractional).copysign(match f.sign {
        Sign::Positive => 1.0,
        Sign::Negative => -1.0,
    }) * exponent
}

/// The same digit-folding rule for an exponent, always in base ten.
fn exponent_value(e: &Exponent) -> f64 {
    let mut whole = 0.0f64;
    for d in &e.whole {
        whole = whole * 10.0 + f64::from(*d);
    }
    let mut fractional = 0.0f64;
    let mut place = 0.1f64;
    for d in &e.fractional {
        fractional += f64::from(*d) * place;
        place /= 10.0;
    }
    (whole + fractional).copysign(match e.sign {
        Sign::Positive => 1.0,
        Sign::Negative => -1.0,
    })
}

#[test]
fn float_evaulates() {
    assert_eq!(
        float_value(&Float {
            base: Base::Decimal,
            whole: vec![1],
            fractional: Vec::new(),
            sign: Sign::Positive,
            exponent: None,
        }),
        1.0f64
    );

    assert_eq!(
        float_value(&Float {
            base: Base::Hexadecimal,
            whole: vec![0xf, 0xf],
            fractional: vec![0x8],
            sign: Sign::Negative,
            exponent: None,
        }),
        -255.5f64
    );

    assert_eq!(
        float_value(&Float {
            base: Base::Hexadecimal,
            whole: vec![1],
            fractional: Vec::new(),
            sign: Sign::Positive,
            exponent: Some(Exponent {
                whole: vec![3],
                fractional: Vec::new(),
                sign: Sign::Positive
            }),
        }),
        1000f64
    );
}

#[test]
fn numeric_model() {
    let v = chars("0xff.0");
    let (rest, f) = Float::parse(&v, 0).unwrap();
    assert_eq!(rest, v.len());
    assert_eq!(
        f,
        Float {
            base: Base::Hexadecimal,
            whole: vec![15, 15],
            fractional: vec![0],
            sign: Sign::Positive,
            exponent: None
        }
    );
    assert_eq!(float_value(&f), 255.0f64);

    let v = chars("-0xff.8");
    let (rest, f) = Float::parse(&v, 0).unwrap();
    assert_eq!(rest, v.len());
    assert_eq!(float_value(&f), -255.5f64);
}

#[test]
fn literal_parses() {
    let v = chars("10");
    assert_eq!(
        Literal::parse(&v, 0),
        Ok((
            2,
            Literal::Integer(Integer {
                base: Base::Decimal,
                digits: vec![1, 0],
                sign: Sign::Positive
            })
        ))
    );

    let v = chars("10.0");
    assert_eq!(
        Literal::parse(&v, 0),
        Ok((
            4,
            Literal::Float(Float {
                base: Base::Decimal,
                whole: vec![1, 0],
                fractional: vec![0],
                sign: Sign::Positive,
                exponent: None
            })
        ))
    );

    let v = chars("'a'");
    assert_eq!(Literal::parse(&v, 0), Ok((3, Literal::Character(Character('a')))));

    let v = chars("\"a\"");
    assert_eq!(
        Literal::parse(&v, 0),
        Ok((3, Literal::String(Str(std::string::String::from("a")))))
    );
}

#[test]
fn boolean_parses() {
    let v = chars("true");
    assert_eq!(Boolean::parse(&v, 0), Ok((4, Boolean(true))));
    let v = chars("false");
    assert_eq!(Boolean::parse(&v, 0), Ok((5, Boolean(false))));
}

#[test]
fn character_parses() {
    let v = chars("'a'");
    assert_eq!(Character::parse(&v, 0), Ok((3, Character('a'))));
    let v = chars("'\n'");
    assert_eq!(Character::parse(&v, 0), Ok((3, Character('\n'))));
}

#[test]
fn digits_parse() {
    let v = chars("10");
    assert_eq!(Base::Decimal.parse_digits(&v, 0), Ok((2, vec![1, 0])));
    let v = chars("FF");
    assert_eq!(Base::Hexadecimal.parse_digits(&v, 0), Ok((2, vec![0xF, 0xF])));
}

#[test]
fn base_parses() {
    let v = chars("0b1");
    assert_eq!(Base::parse(&v, 0), (2, Base::Binary));
    let v = chars("0o7");
    assert_eq!(Base::parse(&v, 0), (2, Base::Octal));
    let v = chars("9");
    assert_eq!(Base::parse(&v, 0), (0, Base::Decimal));
    let v = chars("");
    assert_eq!(Base::parse(&v, 0), (0, Base::Decimal));
    let v = chars("0xff");
    assert_eq!(Base::parse(&v, 0), (2, Base::Hexadecimal));
}

#[test]
fn sign_parses() {
    let v = chars("+1");
    assert_eq!(Sign::parse(&v, 0), (1, Sign::Positive));
    let v = chars("-1");
    assert_eq!(Sign::parse(&v, 0), (1, Sign::Negative));
    let v = chars("1");
    assert_eq!(Sign::parse(&v, 0), (0, Sign::Positive));
}

#[test]
fn float_parses() {
    let v = chars(".5");
    assert_eq!(
        Float::parse(&v, 0),
        Ok((
            2,
            Float {
                base: Base::Decimal,
                whole: Vec::new(),
                fractional: vec![5],
                sign: Sign::Positive,
                exponent: None
            }
        ))
    );
    let v = chars("4.2");
    assert_eq!(
        Float::parse(&v, 0),
        Ok((
            3,
            Float {
                base: Base::Decimal,
                whole: vec![4],
                fractional: vec![2],
                sign: Sign::Positive,
                exponent: None
            }
        ))
    );
    let v = chars("0xff.0");
    assert_eq!(
        Float::parse(&v, 0),
        Ok((
            6,
            Float {
                base: Base::Hexadecimal,
                whole: vec![0xf, 0xf],
                fractional: vec![0],
                sign: Sign::Positive,
                exponent: None
            }
        ))
    );
}

#[test]
fn exponent_parses() {
    let v = chars(";");
    assert_eq!(Exponent::parse(&v, 0), Ok((0, None)));
    let v = chars("e1;");
    assert_eq!(
        Exponent::parse(&v, 0),
        Ok((
            2,
            Some(Exponent { whole: vec![1], fractional: Vec::new(), sign: Sign::Positive })
        ))
    );
    let v = chars("e-1.1;");
    assert_eq!(
        Exponent::parse(&v, 0),
        Ok((
            5,
            Some(Exponent { whole: vec![1], fractional: vec![1], sign: Sign::Negative })
        ))
    );
}

#[test]
fn integer_parses() {
    let v = chars("42");
    assert_eq!(
        Integer::parse(&v, 0),
        Ok((2, Integer { base: Base::Decimal, digits: vec![4, 2], sign: Sign::Positive }))
    );
    let v = chars("0xff");
    assert_eq!(
        Integer::parse(&v, 0),
        Ok((
            4,
            Integer { base: Base::Hexadecimal, digits: vec![0xf, 0xf], sign: Sign::Positive }
        ))
    );
}

#[test]
fn string_parses() {
    let v = chars("\"hello world\"");
    assert_eq!(
        Str::parse(&v, 0),
        Ok((13, Str(std::string::String::from("hello world"))))
    );
    let v = chars("\"hello\\nworld\"");
    assert_eq!(
        Str::parse(&v, 0),
        Ok((14, Str(std::string::String::from("hello\nworld"))))
    );
}
