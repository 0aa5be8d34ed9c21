use vstd::prelude::*;

verus! {

/// Why a text could not be turned into a program.
#[derive(Clone, Copy, Debug, PartialEq, Eq, Structural)]
pub enum ParseError {
    FoundIllegalToken,
    FoundUnexpectedToken,
    FoundUnterminatedParentheses,
}

/// Why a program could not be reduced to a number.
#[derive(Clone, Copy, Debug, PartialEq, Eq, Structural)]
pub enum RuntimeError {
    DivideByZero,
    FoundNoProgram,
    /// An intermediate result does not fit in an `i64`.
    IntegerOverflow,
}

impl ParseError {
    /// The human-readable description of the error.
    pub fn message(&self) -> (r: &'static str)
        ensures
            r@ == parse_error_message(*self),
    {
        match self {
            ParseError::FoundIllegalToken => "Found an illegal token.",
            ParseError::FoundUnexpectedToken => "Found an unexpected token.",
            ParseError::FoundUnterminatedParentheses => "Found an unterminated parentheses.",
        }
    }
}

pub open spec fn parse_error_message(e: ParseError) -> Seq<char> {
    match e {
        ParseError::FoundIllegalToken => "Found an illegal token."@,
        ParseError::FoundUnexpectedToken => "Found an unexpected token."@,
        ParseError::FoundUnterminatedParentheses => "Found an unterminated parentheses."@,
    }
}

impl RuntimeError {
    /// The human-readable description of the error.
    pub fn message(&self) -> (r: &'static str)
        ensures
            r@ == runtime_error_message(*self),
    {
        match self {
            RuntimeError::DivideByZero => "Divide a number by 0.",
            RuntimeError::FoundNoProgram => "Found no program.",
            RuntimeError::IntegerOverflow => "An integer overflowed.",
        }
    }
}

pub open spec fn runtime_error_message(e: RuntimeError) -> Seq<char> {
    match e {
        RuntimeError::DivideByZero => "Divide a number by 0."@,
        RuntimeError::FoundNoProgram => "Found no program."@,
        RuntimeError::IntegerOverflow => "An integer overflowed."@,
    }
}

} // verus!
