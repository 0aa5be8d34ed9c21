use calculator::lexer::Lexer;
use calculator::token::Token;

#[test]
fn test_next_token() {
    let input = r#"
        1 + 2
        3 - 4
        5 * 6
        7 / 8
        ()
        9*10

        &
        "#;
    let tests = vec![
        Token::Integer(1),
        Token::Plus,
        Token::Integer(2),
        Token::Integer(3),
        Token::Minus,
        Token::Integer(4),
        Token::Integer(5),
        Token::Asterisk,
        Token::Integer(6),
        Token::Integer(7),
        Token::Slash,
        Token::Integer(8),
        Token::LeftParen,
        Token::RightParen,
        Token::Integer(9),
        Token::Asterisk,
        Token::Integer(10),
        Token::Illegal,
        Token::Eof,
    ];

    let mut lexer = Lexer::new(input);

    for want in tests {
        let got = lexer.next_token();
        assert_eq!(want, got);
    }
}

#[test]
fn end_of_input_repeats() {
    let mut lexer = Lexer::new("7");
    assert_eq!(Token::Integer(7), lexer.next_token());
    assert_eq!(Token::Eof, lexer.next_token());
    assert_eq!(Token::Eof, lexer.next_token());
}

#[test]
fn zero_byte_ends_input() {
    let mut lexer = Lexer::new("1\0+2");
    assert_eq!(Token::Integer(1), lexer.next_token());
    assert_eq!(Token::Eof, lexer.next_token());
    assert_eq!(Token::Eof, lexer.next_token());
}

#[test]
fn empty_input_is_end_of_input() {
    let mut lexer = Lexer::new("");
    assert_eq!(Token::Eof, lexer.next_token());
}

#[test]
fn largest_integer_is_read() {
    let mut lexer = Lexer::new("9223372036854775807");
    assert_eq!(Token::Integer(i64::MAX), lexer.next_token());
    assert_eq!(Token::Eof, lexer.next_token());
}

#[test]
fn integer_too_large_is_illegal() {
    let mut lexer = Lexer::new("9223372036854775808 1");
    assert_eq!(Token::Illegal, lexer.next_token());
    assert_eq!(Token::Integer(1), lexer.next_token());
}

#[test]
fn whitespace_kinds_are_skipped() {
    let mut lexer = Lexer::new(" \t\r\n12\t*\r\n007");
    assert_eq!(Token::Integer(12), lexer.next_token());
    assert_eq!(Token::Asterisk, lexer.next_token());
    assert_eq!(Token::Integer(7), lexer.next_token());
    assert_eq!(Token::Eof, lexer.next_token());
}
