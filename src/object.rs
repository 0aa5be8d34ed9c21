use crate::text::{decimal, push_decimal};
use vstd::prelude::*;
use vstd::string::StringExecFns;

verus! {

/// The kind of failure that an error value stands for.
#[derive(PartialEq, Eq, Structural, Clone, Copy, Debug)]
pub enum ErrorCode {
    RuntimeError,
    ParseError,
}

/// A value that evaluation hands back: a number, or an error with its message.
#[derive(PartialEq, Clone, Debug)]
pub enum Object {
    Int(i64),
    Error(ErrorCode, String),
}

pub open spec fn error_code_name(c: ErrorCode) -> Seq<char> {
    match c {
        ErrorCode::RuntimeError => "RuntimeError"@,
        ErrorCode::ParseError => "ParseError"@,
    }
}

/// How a value is shown: a number in decimal; an error as its kind, a colon
/// and its message.
pub open spec fn object_text(o: Object) -> Seq<char> {
    match o {
        Object::Int(v) => decimal(v as int),
        Object::Error(c, m) => error_code_name(c) + ": "@ + m@,
    }
}

impl Object {
    pub fn to_text(&self) -> (r: String)
        ensures
            r@ == object_text(*self),
    {
        let mut out = String::new();
        match self {
            Object::Int(value) => {
                push_decimal(&mut out, *value);
            },
            Object::Error(code, message) => {
                match code {
                    ErrorCode::RuntimeError => out.append("RuntimeError"),
                    ErrorCode::ParseError => out.append("ParseError"),
                }
                out.append(": ");
                out.append(message.as_str());
            },
        }
        assert(out@ =~= object_text(*self));
        out
    }
}

} // verus!
