use vstd::prelude::*;

verus! {

/// A lexical symbol of an arithmetic expression.
#[derive(Clone, Copy, Debug, PartialEq, Eq, Structural)]
pub enum Token {
    Illegal,
    Eof,
    Integer(i64),
    Plus,
    Minus,
    Asterisk,
    Slash,
    LeftParen,
    RightParen,
}

} // verus!
