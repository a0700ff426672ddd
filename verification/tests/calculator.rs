use calculator::errors::{EvalError, Expected, TokenKind};
use calculator::evaluate;

/// Evaluate and decode the result as a double; panics on error.
fn ev(s: &str) -> f64 {
    f64::from_bits(evaluate(s).unwrap())
}

#[test]
fn test_simple_calculation() {
    assert_eq!(ev("2*2"), 4.0);
}

#[test]
fn test_complex_calculation() {
    assert_eq!(ev("(5+3)/2"), 4.0);
}

#[test]
fn test_addition_and_precedence() {
    assert_eq!(ev("1+2*3"), 7.0);
    assert_eq!(ev("(1+2)*3"), 9.0);
    assert_eq!(ev("10-2*3"), 4.0);
}

#[test]
fn test_left_associativity() {
    assert_eq!(ev("2-3-4"), -5.0);
    assert_eq!(ev("100/5/2"), 10.0);
}

#[test]
fn test_division() {
    assert_eq!(ev("7/2"), 3.5);
    assert_eq!(ev("1/3"), 1.0f64 / 3.0f64);
}

#[test]
fn test_double_precision_rounding() {
    assert_eq!(ev("0.1+0.2"), 0.1f64 + 0.2f64);
    assert_eq!(ev("0.1+0.2"), 0.30000000000000004);
}

#[test]
fn test_scientific_literals() {
    assert_eq!(ev("1e3"), 1000.0);
    assert_eq!(ev("2.5e-1"), 0.25);
    assert_eq!(ev("1.5+1.5"), 3.0);
    assert_eq!(ev("4E2"), 400.0);
}

#[test]
fn test_whitespace() {
    assert_eq!(ev(" 2 +\t3 "), 5.0);
}

#[test]
fn test_idempotent_evaluation() {
    let a = evaluate("2^3^2+1/3");
    let b = evaluate("2^3^2+1/3");
    assert_eq!(a, b);
}

#[test]
fn test_division_by_zero() {
    assert_eq!(evaluate("1/0"), Err(EvalError::DivisionByZero));
}

#[test]
fn test_division_by_zero_result() {
    assert_eq!(evaluate("1/(2-2)"), Err(EvalError::DivisionByZero));
}

#[test]
fn test_missing_operand() {
    assert_eq!(
        evaluate("2^"),
        Err(EvalError::ParseError { position: 2, expected: Expected::Operand, found: None })
    );
}

#[test]
fn test_unknown_function() {
    assert_eq!(
        evaluate("foo(1)"),
        Err(EvalError::UnknownFunction { name: String::from("foo") })
    );
}

#[test]
fn test_arity_mismatch() {
    assert_eq!(
        evaluate("sqrt(1,2)"),
        Err(EvalError::ArityMismatch { name: String::from("sqrt"), expected: 1, got: 2 })
    );
}

#[test]
fn test_arity_mismatch_empty_args() {
    assert_eq!(
        evaluate("max()"),
        Err(EvalError::ArityMismatch { name: String::from("max"), expected: 2, got: 0 })
    );
}

#[test]
fn test_unary_minus_precedence() {
    assert_eq!(ev("-2^2"), -4.0);
}

#[test]
fn test_power_right_associative() {
    assert_eq!(ev("2^3^2"), 512.0);
}

#[test]
fn test_power_integer_exponents() {
    assert_eq!(ev("2^10"), 1024.0);
    assert_eq!(ev("2^-2"), 0.25);
    assert_eq!(ev("0^0"), 1.0);
    assert_eq!(ev("(-2)^3"), -8.0);
}

#[test]
fn test_fractional_exponent_unsupported() {
    assert_eq!(
        evaluate("2^0.5"),
        Err(EvalError::Unsupported { name: String::from("^") })
    );
}

#[test]
fn test_transcendental_unsupported() {
    assert_eq!(
        evaluate("sin(0)"),
        Err(EvalError::Unsupported { name: String::from("sin") })
    );
}

#[test]
fn test_max_min_abs() {
    assert_eq!(ev("max(1,2)"), 2.0);
    assert_eq!(ev("max(2,1)"), 2.0);
    assert_eq!(ev("min(1,2)"), 1.0);
    assert_eq!(ev("abs(-3)"), 3.0);
    assert_eq!(ev("abs(3)"), 3.0);
    assert_eq!(ev("max(1+1,1)"), 2.0);
}

#[test]
fn test_double_unary_minus() {
    assert_eq!(ev("--2"), 2.0);
    assert_eq!(ev("-0"), -0.0);
    assert!(f64::from_bits(evaluate("-0").unwrap()).is_sign_negative());
}

#[test]
fn test_lex_error() {
    assert_eq!(
        evaluate("2 @ 2"),
        Err(EvalError::LexError { position: 2, found: '@' })
    );
}

#[test]
fn test_empty_input() {
    assert_eq!(
        evaluate(""),
        Err(EvalError::ParseError { position: 0, expected: Expected::Operand, found: None })
    );
}

#[test]
fn test_missing_close_paren() {
    assert_eq!(
        evaluate("(1+2"),
        Err(EvalError::ParseError { position: 4, expected: Expected::CloseParen, found: None })
    );
}

#[test]
fn test_trailing_garbage() {
    assert_eq!(
        evaluate("1 2"),
        Err(EvalError::ParseError {
            position: 1,
            expected: Expected::EndOfInput,
            found: Some(TokenKind::Number),
        })
    );
}

#[test]
fn test_identifier_without_arguments() {
    assert_eq!(
        evaluate("foo"),
        Err(EvalError::ParseError { position: 1, expected: Expected::LeftParen, found: None })
    );
}

#[test]
fn test_argument_list_error() {
    assert_eq!(
        evaluate("max(1;2)"),
        Err(EvalError::LexError { position: 5, found: ';' })
    );
    assert_eq!(
        evaluate("max(1 2)"),
        Err(EvalError::ParseError {
            position: 3,
            expected: Expected::CommaOrCloseParen,
            found: Some(TokenKind::Number),
        })
    );
}

#[test]
fn test_input_too_large() {
    let big = "1".repeat(10_001);
    assert_eq!(evaluate(&big), Err(EvalError::InputTooLarge));
    let long_literal = "1".repeat(1_000);
    assert_eq!(
        f64::from_bits(evaluate(&long_literal).unwrap()),
        long_literal.parse::<f64>().unwrap()
    );
}
