use calculator::ast::{Expr, Infix, Literal, Prefix, Program, Statement};
use calculator::error::ParseError;
use calculator::lexer::Lexer;
use calculator::parser::Parser;

fn lit(n: i64) -> Box<Expr> {
    Box::new(Expr::Literal(Literal::Int(n)))
}

fn parse(input: &str) -> Result<Program, ParseError> {
    let mut parser = Parser::new(Lexer::new(input));
    parser.parse()
}

#[test]
fn test_literals() {
    let tests = vec![
        (
            r#"1000
                "#,
            vec![Statement::Expression(Expr::Literal(Literal::Int(1000)))],
        ),
        (
            r#"-2000
                "#,
            vec![Statement::Expression(Expr::Prefix(
                Prefix::Minus,
                Box::new(Expr::Literal(Literal::Int(2000))),
            ))],
        ),
        (
            r#"3000 + 4000
                "#,
            vec![Statement::Expression(Expr::Infix(
                Infix::Plus,
                Box::new(Expr::Literal(Literal::Int(3000))),
                Box::new(Expr::Literal(Literal::Int(4000))),
            ))],
        ),
        (
            r#"3000 - 4000
                "#,
            vec![Statement::Expression(Expr::Infix(
                Infix::Minus,
                Box::new(Expr::Literal(Literal::Int(3000))),
                Box::new(Expr::Literal(Literal::Int(4000))),
            ))],
        ),
        (
            r#"3000 * 4000
                "#,
            vec![Statement::Expression(Expr::Infix(
                Infix::Multiply,
                Box::new(Expr::Literal(Literal::Int(3000))),
                Box::new(Expr::Literal(Literal::Int(4000))),
            ))],
        ),
        (
            r#"3000 / 4000
                "#,
            vec![Statement::Expression(Expr::Infix(
                Infix::Divide,
                Box::new(Expr::Literal(Literal::Int(3000))),
                Box::new(Expr::Literal(Literal::Int(4000))),
            ))],
        ),
        (
            r#"(3000 + 4000 ) / 10
                "#,
            vec![Statement::Expression(Expr::Infix(
                Infix::Divide,
                Box::new(Expr::Infix(
                    Infix::Plus,
                    Box::new(Expr::Literal(Literal::Int(3000))),
                    Box::new(Expr::Literal(Literal::Int(4000))),
                )),
                Box::new(Expr::Literal(Literal::Int(10))),
            ))],
        ),
    ];

    for (input, want) in tests {
        let mut parser = Parser::new(Lexer::new(input));
        let program = parser.parse().unwrap();
        assert_eq!(want, program);
    }
}

#[test]
fn test_found_illegal_token() {
    let tests = vec![
        (
            r#"1x
                "#,
            ParseError::FoundIllegalToken,
        ),
        (
            r#")
                "#,
            ParseError::FoundUnexpectedToken,
        ),
        (
            r#"(1
                "#,
            ParseError::FoundUnterminatedParentheses,
        ),
    ];

    for (input, want) in tests {
        let mut parser = Parser::new(Lexer::new(input));
        let error = parser.parse().unwrap_err();
        assert_eq!(want, error);
    }
}

#[test]
fn products_bind_before_sums() {
    let want = vec![Statement::Expression(Expr::Infix(
        Infix::Plus,
        Box::new(Expr::Infix(Infix::Multiply, lit(1), lit(2))),
        Box::new(Expr::Infix(Infix::Multiply, lit(3), lit(4))),
    ))];
    assert_eq!(Ok(want), parse("1*2+3*4"));
}

#[test]
fn same_precedence_folds_left() {
    let want = vec![Statement::Expression(Expr::Infix(
        Infix::Minus,
        Box::new(Expr::Infix(Infix::Minus, lit(1), lit(2))),
        lit(3),
    ))];
    assert_eq!(Ok(want), parse("1 - 2 - 3"));
    let want = vec![Statement::Expression(Expr::Infix(
        Infix::Divide,
        Box::new(Expr::Infix(Infix::Divide, lit(8), lit(4))),
        lit(2),
    ))];
    assert_eq!(Ok(want), parse("8 / 4 / 2"));
}

#[test]
fn subtraction_keeps_operand_order() {
    let want = vec![Statement::Expression(Expr::Infix(Infix::Minus, lit(3000), lit(4000)))];
    let reversed = vec![Statement::Expression(Expr::Infix(Infix::Minus, lit(4000), lit(3000)))];
    let got = parse("3000 - 4000").unwrap();
    assert_eq!(want, got);
    assert_ne!(reversed, got);
}

#[test]
fn negation_binds_tighter_than_division() {
    let want = vec![Statement::Expression(Expr::Infix(
        Infix::Divide,
        Box::new(Expr::Prefix(Prefix::Minus, lit(1234))),
        lit(5),
    ))];
    assert_eq!(Ok(want), parse("-1234 / 5"));
}

#[test]
fn parentheses_override_precedence() {
    let want = vec![Statement::Expression(Expr::Infix(
        Infix::Multiply,
        lit(2),
        Box::new(Expr::Infix(Infix::Plus, lit(3), lit(4))),
    ))];
    assert_eq!(Ok(want), parse("2 * (3 + 4)"));
}

#[test]
fn expression_trees_compare_by_structure() {
    assert_ne!(Expr::Literal(Literal::Int(2)), Expr::Literal(Literal::Int(-2)));
    assert_ne!(
        Expr::Infix(Infix::Plus, lit(1), lit(2)),
        Expr::Infix(Infix::Plus, lit(2), lit(1))
    );
    assert_eq!(
        Expr::Infix(Infix::Plus, lit(1), lit(2)),
        Expr::Infix(Infix::Plus, lit(1), lit(2)).clone()
    );
}

#[test]
fn malformed_inputs_give_their_errors() {
    assert_eq!(Err(ParseError::FoundUnexpectedToken), parse(")"));
    assert_eq!(Err(ParseError::FoundUnterminatedParentheses), parse("(1"));
    assert_eq!(Err(ParseError::FoundIllegalToken), parse("&"));
    assert_eq!(Err(ParseError::FoundUnexpectedToken), parse("1 +"));
    assert_eq!(Err(ParseError::FoundUnexpectedToken), parse("1 + &"));
    assert_eq!(Err(ParseError::FoundUnexpectedToken), parse("-)+1"));
    assert_eq!(Err(ParseError::FoundUnexpectedToken), parse("(*2)"));
}

#[test]
fn empty_input_is_an_empty_program() {
    assert_eq!(Ok(vec![]), parse(""));
    assert_eq!(Ok(vec![]), parse("  \n"));
}

#[test]
fn statements_follow_one_another() {
    let want = vec![
        Statement::Expression(Expr::Literal(Literal::Int(1))),
        Statement::Expression(Expr::Infix(Infix::Plus, lit(2), lit(3))),
    ];
    assert_eq!(Ok(want), parse("1 2 + 3"));
}

#[test]
fn parse_error_messages() {
    assert_eq!("Found an illegal token.", ParseError::FoundIllegalToken.message());
    assert_eq!("Found an unexpected token.", ParseError::FoundUnexpectedToken.message());
    assert_eq!(
        "Found an unterminated parentheses.",
        ParseError::FoundUnterminatedParentheses.message()
    );
}
