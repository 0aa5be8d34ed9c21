pub mod ast;
pub mod compiler;
pub mod error;
pub mod evaluator;
pub mod grammar;
pub mod lexer;
pub mod machine;
pub mod object;
pub mod parser;
pub mod postfix;
pub mod text;
pub mod token;
