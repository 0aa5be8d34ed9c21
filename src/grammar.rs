use crate::ast::{rank, Expr, Infix, Literal, Precedence, Prefix, Statement};
use crate::error::ParseError;
use crate::lexer::{lemma_lex_step_progress, lex_step};
use crate::token::Token;
use vstd::prelude::*;

verus! {

/// The binary operator that a token stands for, if any.
pub open spec fn infix_of(t: Token) -> Option<Infix> {
    match t {
        Token::Plus => Some(Infix::Plus),
        Token::Minus => Some(Infix::Minus),
        Token::Asterisk => Some(Infix::Multiply),
        Token::Slash => Some(Infix::Divide),
        _ => None,
    }
}

/// How tightly a token binds as a binary operator; `Lowest` for a token that
/// is no binary operator.
pub open spec fn precedence_of(t: Token) -> Precedence {
    match t {
        Token::Plus | Token::Minus => Precedence::Sum,
        Token::Asterisk | Token::Slash => Precedence::Product,
        _ => Precedence::Lowest,
    }
}

/// The expression that starts with the token at `p` and whose binary operators
/// all bind tighter than `min`, with the position of the token that follows it.
///
/// The positions that a parse returns always lie past the one it started from,
/// so the branches guarded by that comparison never give the error; they only
/// keep the definition total.
pub open spec fn parse_expr(s: Seq<u8>, p: int, min: Precedence) -> Result<
    (Expr, int),
    ParseError,
>
    decreases s.len() - p, 2int,
{
    match parse_primary(s, p) {
        Err(x) => Err(x),
        Ok((left, q)) => if p < q <= s.len() {
            climb(s, left, q, min)
        } else {
            Err(ParseError::FoundUnexpectedToken)
        },
    }
}

/// A literal, a negated operand, or an expression in parentheses, starting
/// with the token at `p`.
pub open spec fn parse_primary(s: Seq<u8>, p: int) -> Result<(Expr, int), ParseError>
    decreases s.len() - p, 1int,
{
    proof {
        lemma_lex_step_progress(s, p);
    }
    let (t, p1) = lex_step(s, p);
    match t {
        Token::Integer(n) => Ok((Expr::Literal(Literal::Int(n)), p1)),
        Token::Minus => match parse_expr(s, p1, Precedence::Prefix) {
            Err(x) => Err(x),
            Ok((e, q)) => Ok((Expr::Prefix(Prefix::Minus, Box::new(e)), q)),
        },
        Token::LeftParen => match parse_expr(s, p1, Precedence::Lowest) {
            Err(x) => Err(x),
            Ok((e, q)) => if lex_step(s, q).0 == Token::RightParen {
                Ok((e, lex_step(s, q).1))
            } else {
                Err(ParseError::FoundUnterminatedParentheses)
            },
        },
        _ => Err(ParseError::FoundUnexpectedToken),
    }
}

/// Folds into `left` each following binary operator that binds tighter than
/// `min`, together with its right operand, from left to right.
pub open spec fn climb(s: Seq<u8>, left: Expr, q: int, min: Precedence) -> Result<
    (Expr, int),
    ParseError,
>
    decreases s.len() - q, 0int,
{
    proof {
        lemma_lex_step_progress(s, q);
    }
    let (t, q1) = lex_step(s, q);
    match infix_of(t) {
        Some(op) => if rank(min) < rank(precedence_of(t)) {
            match parse_expr(s, q1, precedence_of(t)) {
                Err(x) => Err(x),
                Ok((right, q2)) => if q < q2 <= s.len() {
                    climb(s, Expr::Infix(op, Box::new(left), Box::new(right)), q2, min)
                } else {
                    Err(ParseError::FoundUnexpectedToken)
                },
            }
        } else {
            Ok((left, q))
        },
        None => Ok((left, q)),
    }
}

/// Puts `first` in front of the statements of a successful parse.
pub open spec fn prepend(first: Seq<Statement>, r: Result<Seq<Statement>, ParseError>) -> Result<
    Seq<Statement>,
    ParseError,
> {
    match r {
        Ok(rest) => Ok(first + rest),
        Err(x) => Err(x),
    }
}

/// The statements from position `p` to the end of input: expressions, one
/// after the other, each as long as it can be.
pub open spec fn parse_program(s: Seq<u8>, p: int) -> Result<Seq<Statement>, ParseError>
    decreases s.len() - p,
{
    let t = lex_step(s, p).0;
    if t == Token::Eof {
        Ok(Seq::empty())
    } else if t == Token::Illegal {
        Err(ParseError::FoundIllegalToken)
    } else {
        match parse_expr(s, p, Precedence::Lowest) {
            Err(x) => Err(x),
            Ok((e, q)) => if p < q <= s.len() {
                prepend(seq![Statement::Expression(e)], parse_program(s, q))
            } else {
                Err(ParseError::FoundUnexpectedToken)
            },
        }
    }
}


/// A successful parse ends past the token it started from and within the input.
pub proof fn lemma_parse_expr_advances(s: Seq<u8>, p: int, min: Precedence)
    ensures
        parse_expr(s, p, min) is Ok ==> p < parse_expr(s, p, min)->Ok_0.1 <= s.len(),
    decreases s.len() - p, 2int,
{
    lemma_parse_primary_advances(s, p);
    if let Ok((left, q)) = parse_primary(s, p) {
        lemma_climb_advances(s, left, q, min);
    }
}

pub proof fn lemma_parse_primary_advances(s: Seq<u8>, p: int)
    ensures
        parse_primary(s, p) is Ok ==> p < parse_primary(s, p)->Ok_0.1 <= s.len(),
    decreases s.len() - p, 1int,
{
    lemma_lex_step_progress(s, p);
    let (t, p1) = lex_step(s, p);
    match t {
        Token::Minus => {
            lemma_parse_expr_advances(s, p1, Precedence::Prefix);
        },
        Token::LeftParen => {
            lemma_parse_expr_advances(s, p1, Precedence::Lowest);
            if let Ok((e, q)) = parse_expr(s, p1, Precedence::Lowest) {
                lemma_lex_step_progress(s, q);
            }
        },
        _ => {},
    }
}

pub proof fn lemma_climb_advances(s: Seq<u8>, left: Expr, q: int, min: Precedence)
    ensures
        q <= s.len() && climb(s, left, q, min) is Ok ==> q <= climb(s, left, q, min)->Ok_0.1
            <= s.len(),
    decreases s.len() - q, 0int,
{
    lemma_lex_step_progress(s, q);
    let (t, q1) = lex_step(s, q);
    if let Some(op) = infix_of(t) {
        if rank(min) < rank(precedence_of(t)) {
            lemma_parse_expr_advances(s, q1, precedence_of(t));
            if let Ok((right, q2)) = parse_expr(s, q1, precedence_of(t)) {
                if q < q2 <= s.len() {
                    lemma_climb_advances(
                        s,
                        Expr::Infix(op, Box::new(left), Box::new(right)),
                        q2,
                        min,
                    );
                }
            }
        }
    }
}

/// A parse at level `min` stops only in front of a token that binds no tighter
/// than `min`. So the right operand of an operator, parsed at that operator's
/// own level, ends before the next operator of the same or a weaker level:
/// `a - b - c` groups as `(a - b) - c`, and `a * b + c` as `(a * b) + c`.
pub proof fn lemma_parse_stops_at_weaker_operator(s: Seq<u8>, p: int, min: Precedence)
    ensures
        parse_expr(s, p, min) is Ok ==> rank(
            precedence_of(lex_step(s, parse_expr(s, p, min)->Ok_0.1).0),
        ) <= rank(min),
{
    if let Ok((left, q)) = parse_primary(s, p) {
        if p < q <= s.len() {
            lemma_climb_stops_at_weaker_operator(s, left, q, min);
        }
    }
}

pub proof fn lemma_climb_stops_at_weaker_operator(s: Seq<u8>, left: Expr, q: int, min: Precedence)
    ensures
        climb(s, left, q, min) is Ok ==> rank(
            precedence_of(lex_step(s, climb(s, left, q, min)->Ok_0.1).0),
        ) <= rank(min),
    decreases s.len() - q,
{
    lemma_lex_step_progress(s, q);
    let (t, q1) = lex_step(s, q);
    if let Some(op) = infix_of(t) {
        if rank(min) < rank(precedence_of(t)) {
            if let Ok((right, q2)) = parse_expr(s, q1, precedence_of(t)) {
                if q < q2 <= s.len() {
                    lemma_climb_stops_at_weaker_operator(
                        s,
                        Expr::Infix(op, Box::new(left), Box::new(right)),
                        q2,
                        min,
                    );
                }
            }
        }
    }
}

/// Negation binds tighter than every binary operator: its operand is the
/// primary expression right after the minus sign, so in `-a / b` the minus
/// applies to `a` alone.
pub proof fn lemma_negation_binds_tightest(s: Seq<u8>, p: int)
    requires
        lex_step(s, p).0 == Token::Minus,
    ensures
        parse_primary(s, p) == match parse_primary(s, lex_step(s, p).1) {
            Ok((e, q)) => Ok((Expr::Prefix(Prefix::Minus, Box::new(e)), q)),
            Err(x) => Err(x),
        },
{
    let p1 = lex_step(s, p).1;
    lemma_parse_primary_advances(s, p1);
    if let Ok((e, q)) = parse_primary(s, p1) {
        lemma_lex_step_progress(s, q);
        assert(parse_expr(s, p1, Precedence::Prefix) == climb(s, e, q, Precedence::Prefix));
    }
}

} // verus!
