use rlisp::text::{chars_of, decimal_text, repeat, text_of};
use rlisp::{Error, ErrorInfo, Number, Object, Operation, Outcome, Request, TokenType};

fn samples() -> Vec<f64> {
    vec![
        0.0,
        -0.0,
        1.0,
        -1.0,
        0.5,
        -0.5,
        0.999_999_999,
        1.000_000_001,
        2.0,
        2.9,
        3.0,
        -3.7,
        255.5,
        65536.0,
        123_456_789.123,
        4_294_967_295.0,
        4_294_967_296.0,
        4_294_967_296.5,
        9_007_199_254_740_991.0,
        9_007_199_254_740_992.0,
        9_007_199_254_740_994.0,
        1e19,
        18_446_744_073_709_549_568.0,
        18_446_744_073_709_551_616.0,
        1e20,
        1e300,
        -1e300,
        5e-324,
        -5e-324,
        1e-320,
        f64::MIN_POSITIVE,
        f64::MAX,
        f64::MIN,
        f64::EPSILON,
        f64::INFINITY,
        f64::NEG_INFINITY,
        f64::NAN,
        -f64::NAN,
    ]
}

fn number(x: f64) -> Number {
    Number::from_bits(x.to_bits())
}

#[test]
fn comparisons_agree_with_the_machine() {
    for a in samples() {
        for b in samples() {
            assert_eq!(number(a).less(&number(b)), a < b, "{} < {}", a, b);
            assert_eq!(number(a).equals(&number(b)), a == b, "{} == {}", a, b);
            assert_eq!(number(a).at_most(&number(b)), a <= b, "{} <= {}", a, b);
        }
    }
}

#[test]
fn predicates_agree_with_the_machine() {
    for a in samples() {
        assert_eq!(number(a).is_zero(), a == 0.0, "{}", a);
        assert_eq!(number(a).is_nan(), a.is_nan(), "{}", a);
        assert_eq!(number(a).is_negative(), a.is_sign_negative(), "{}", a);
        assert_eq!(number(a).negate().bits, (-a).to_bits(), "{}", a);
    }
    assert_eq!(Number::zero_value().bits, 0.0f64.to_bits());
}

#[test]
fn counts_agree_with_the_machine() {
    for a in samples() {
        assert_eq!(number(a).to_count(), a as usize, "{}", a);
    }
    assert_eq!(number(3.99).to_count(), 3);
    assert_eq!(number(1e30).to_count(), usize::MAX);
    assert_eq!(number(-2.0).to_count(), 0);
    for n in 0..2000usize {
        assert_eq!(number(n as f64).to_count(), n);
        assert_eq!(number(n as f64 + 0.75).to_count(), n);
    }
}

#[test]
fn decimal_numerals() {
    assert_eq!(decimal_text(0), "0");
    assert_eq!(decimal_text(7), "7");
    assert_eq!(decimal_text(10), "10");
    assert_eq!(decimal_text(1203), "1203");
    assert_eq!(decimal_text(usize::MAX), usize::MAX.to_string());
}

#[test]
fn text_building_blocks() {
    assert_eq!(repeat("ab", 3), "ababab");
    assert_eq!(repeat("ab", 0), "");
    assert_eq!(repeat("", usize::MAX), "");
    let chars = chars_of("héllo");
    assert_eq!(chars, vec!['h', 'é', 'l', 'l', 'o']);
    assert_eq!(text_of(&chars, 1, 4), "éll");
    assert_eq!(text_of(&chars, 2, 2), "");
}

#[test]
fn error_lines() {
    let e = ErrorInfo::new(Error::Name("x".to_string()), 3, 20, 26, 27);
    assert_eq!(e.report(), "NameError: undefined variable \"x\", line 3, pos 6");
    let e = ErrorInfo::new(Error::ZeroDivision, 1, 0, 0, 1);
    assert_eq!(e.report(), "ZeroDivisionError: division by zero, line 1, pos 0");
    assert_eq!(Error::Syntax("s".to_string()).to_string(), "SyntaxError: s");
    assert_eq!(Error::Value("v".to_string()).to_string(), "ValueError: v");
    assert_eq!(Error::Parse("p".to_string()).to_string(), "ParseError: p");
    assert_eq!(Error::Runtime("r".to_string()).to_string(), "RuntimeError: r");
    assert_eq!(Error::Type("t".to_string()).to_string(), "TypeError: t");
    assert_eq!(
        Error::TooManyParameters.to_string(),
        "TooManyParameters: exceeded maximum number of parameters"
    );
    let e = ErrorInfo::new(Error::ZeroDivision, 2, 9, 4, 5);
    assert_eq!(e.report(), "ZeroDivisionError: division by zero, line 2, pos 0");
}

#[test]
fn truthiness_and_display() {
    assert!(!Object::Nil.to_boolean());
    assert!(Object::Boolean(true).to_boolean());
    assert!(!Object::Boolean(false).to_boolean());
    assert!(!Object::Number(number(0.0)).to_boolean());
    assert!(!Object::Number(number(-0.0)).to_boolean());
    assert!(Object::Number(number(0.1)).to_boolean());
    assert!(Object::Number(number(f64::NAN)).to_boolean());
    assert!(!Object::String(String::new()).to_boolean());
    assert!(Object::String("x".to_string()).to_boolean());
    assert!(Object::Nil.is_nil());
    assert!(!Object::Boolean(false).is_nil());
    assert_eq!(Object::Nil.display(), Some("nil".to_string()));
    assert_eq!(Object::Boolean(true).display(), Some("true".to_string()));
    assert_eq!(Object::Boolean(false).display(), Some("false".to_string()));
    assert_eq!(Object::String("s".to_string()).display(), Some("s".to_string()));
    assert_eq!(Object::Number(number(1.0)).display(), None);
}

#[test]
fn operators_on_values() {
    let two = Object::Number(number(2.0));
    let zero = Object::Number(number(0.0));
    assert_eq!(
        Object::binary(two.clone(), &TokenType::Divide, zero.clone()),
        Err(Error::ZeroDivision)
    );
    assert_eq!(
        Object::binary(two.clone(), &TokenType::Divide, Object::Number(number(-0.0))),
        Err(Error::ZeroDivision)
    );
    assert_eq!(
        Object::binary(zero.clone(), &TokenType::Divide, two.clone()),
        Ok(Outcome::Host(Request::Arithmetic {
            operation: Operation::Divide,
            left: number(0.0),
            right: number(2.0),
        }))
    );
    assert_eq!(
        Object::binary(two.clone(), &TokenType::Plus, zero.clone()),
        Ok(Outcome::Host(Request::Arithmetic {
            operation: Operation::Add,
            left: number(2.0),
            right: number(0.0),
        }))
    );
    assert_eq!(
        Object::binary(Object::String("ab".to_string()), &TokenType::Times, two.clone()),
        Ok(Outcome::Value(Object::String("abab".to_string())))
    );
    assert_eq!(
        Object::binary(two.clone(), &TokenType::Times, Object::String("ab".to_string())),
        Ok(Outcome::Value(Object::String("abab".to_string())))
    );
    assert_eq!(
        Object::binary(two.clone(), &TokenType::Times, Object::Boolean(false)),
        Ok(Outcome::Value(Object::Number(number(0.0))))
    );
    assert_eq!(
        Object::binary(Object::Boolean(true), &TokenType::Divide, two.clone()),
        Ok(Outcome::Value(two.clone()))
    );
    assert_eq!(
        Object::binary(two.clone(), &TokenType::Gte, two.clone()),
        Ok(Outcome::Value(Object::Boolean(true)))
    );
    assert_eq!(
        Object::binary(Object::Nil, &TokenType::Ne, two.clone()),
        Ok(Outcome::Value(Object::Boolean(true)))
    );
    assert_eq!(
        two.to_unary(&TokenType::Minus),
        Ok(Object::Number(number(-2.0)))
    );
    assert_eq!(two.to_unary(&TokenType::Plus), Ok(two.clone()));
    assert_eq!(Object::Nil.to_unary(&TokenType::Not), Ok(Object::Boolean(true)));
    assert_eq!(
        Object::Nil.to_unary(&TokenType::Minus),
        Err(Error::Runtime("Operand must be a number.".to_string()))
    );
    assert_eq!(
        two.to_unary(&TokenType::Times),
        Err(Error::Runtime("Invalid unary operator.".to_string()))
    );
}
