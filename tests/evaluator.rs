use calculator::ast::{Expr, Infix, Literal, Statement};
use calculator::error::RuntimeError;
use calculator::evaluator::Evaluator;
use calculator::lexer::Lexer;
use calculator::object::{ErrorCode, Object};
use calculator::parser::Parser;

fn eval(input: &str) -> Result<Object, RuntimeError> {
    Evaluator::new().eval(Parser::new(Lexer::new(input)).parse().unwrap())
}

#[test]
fn test_literal() {
    let tests = vec![
        (
            r#"5
            "#,
            Ok(Object::Int(5)),
        ),
        (
            r#"10
            "#,
            Ok(Object::Int(10)),
        ),
    ];

    for (input, expect) in tests {
        assert_eq!(expect, eval(input));
    }
}

#[test]
fn test_prefix() {
    let tests = vec![(
        r#"-5
        "#,
        Ok(Object::Int(-5)),
    )];

    for (input, expect) in tests {
        assert_eq!(expect, eval(input));
    }
}

#[test]
fn test_infix() {
    let tests = vec![
        (
            r#"1+1
            "#,
            Ok(Object::Int(2)),
        ),
        (
            r#"2-3
            "#,
            Ok(Object::Int(-1)),
        ),
        (
            r#"24*3
            "#,
            Ok(Object::Int(72)),
        ),
        (
            r#"10/3
            "#,
            Ok(Object::Int(3)),
        ),
        (
            r#"10/0
                "#,
            Err(RuntimeError::DivideByZero),
        ),
        (
            r#"1 + 10/0
                "#,
            Err(RuntimeError::DivideByZero),
        ),
        (
            r#"-(10/0)
                "#,
            Err(RuntimeError::DivideByZero),
        ),
        (
            r#"
                "#,
            Err(RuntimeError::FoundNoProgram),
        ),
    ];

    for (input, expect) in tests {
        assert_eq!(expect, eval(input));
    }
}

#[test]
fn test_group() {
    let tests = vec![
        (
            r#"(1+1)
            "#,
            Ok(Object::Int(2)),
        ),
        (
            r#"(2-3)*3
            "#,
            Ok(Object::Int(-3)),
        ),
        (
            r#"(3*24)/3
            "#,
            Ok(Object::Int(24)),
        ),
        (
            r#"(10/3)-1
            "#,
            Ok(Object::Int(2)),
        ),
    ];

    for (input, expect) in tests {
        assert_eq!(expect, eval(input));
    }
}

#[test]
fn precedence_gives_fourteen() {
    assert_eq!(Ok(Object::Int(14)), eval("1*2+3*4"));
}

#[test]
fn parenthesized_sum_then_division() {
    assert_eq!(Ok(Object::Int(700)), eval("(3000 + 4000) / 10"));
}

#[test]
fn negated_dividend_truncates_toward_zero() {
    assert_eq!(Ok(Object::Int(-246)), eval("-1234 / 5"));
    assert_eq!(Ok(Object::Int(-3)), eval("10 / -3"));
    assert_eq!(Ok(Object::Int(3)), eval("-10 / -3"));
    assert_eq!(Ok(Object::Int(0)), eval("-1 / 2"));
}

#[test]
fn subtraction_is_left_associative() {
    assert_eq!(Ok(Object::Int(-1000)), eval("3000 - 4000"));
    assert_eq!(Ok(Object::Int(-4)), eval("1 - 2 - 3"));
}

#[test]
fn only_the_first_statement_is_evaluated() {
    assert_eq!(Ok(Object::Int(1)), eval("1 10/0"));
}

#[test]
fn left_error_is_reported_before_right() {
    assert_eq!(Err(RuntimeError::DivideByZero), eval("1/0 + 9223372036854775807 * 2"));
    assert_eq!(Err(RuntimeError::IntegerOverflow), eval("9223372036854775807 * 2 + 1/0"));
}

#[test]
fn overflow_is_an_error() {
    assert_eq!(Err(RuntimeError::IntegerOverflow), eval("9223372036854775807 + 1"));
    assert_eq!(Err(RuntimeError::IntegerOverflow), eval("-9223372036854775807 - 2"));
    assert_eq!(Err(RuntimeError::IntegerOverflow), eval("(-9223372036854775807 - 1) / -1"));
    assert_eq!(Err(RuntimeError::IntegerOverflow), eval("-(-9223372036854775807 - 1)"));
    assert_eq!(Ok(Object::Int(i64::MIN)), eval("-9223372036854775807 - 1"));
}

#[test]
fn empty_program_has_no_value() {
    assert_eq!(Err(RuntimeError::FoundNoProgram), Evaluator::new().eval(vec![]));
}

#[test]
fn tree_is_evaluated_as_built() {
    let program = vec![Statement::Expression(Expr::Infix(
        Infix::Minus,
        Box::new(Expr::Literal(Literal::Int(4000))),
        Box::new(Expr::Literal(Literal::Int(3000))),
    ))];
    assert_eq!(Ok(Object::Int(1000)), Evaluator::new().eval(program));
}

#[test]
fn runtime_error_messages() {
    assert_eq!("Divide a number by 0.", RuntimeError::DivideByZero.message());
    assert_eq!("Found no program.", RuntimeError::FoundNoProgram.message());
    assert_eq!("An integer overflowed.", RuntimeError::IntegerOverflow.message());
}

#[test]
fn object_text() {
    assert_eq!("-246", Object::Int(-246).to_text());
    assert_eq!("0", Object::Int(0).to_text());
    assert_eq!("-9223372036854775808", Object::Int(i64::MIN).to_text());
    assert_eq!(
        "RuntimeError: Divide a number by 0.",
        Object::Error(ErrorCode::RuntimeError, String::from("Divide a number by 0.")).to_text()
    );
}
