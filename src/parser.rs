use crate::ast::{rank, Expr, Infix, Literal, Precedence, Prefix, Program, Statement};
use crate::error::ParseError;
use crate::grammar::{climb, infix_of, parse_expr, parse_primary, parse_program, precedence_of, prepend};
use crate::lexer::{lemma_lex_step_progress, lex_step, Lexer};
use crate::token::Token;
use vstd::prelude::*;

verus! {

/// A precedence-climbing parser that pulls tokens from a lexer, looking at
/// most one token ahead of the current one.
pub struct Parser<'a> {
    lexer: Lexer<'a>,
    current_token: Token,
    next_token: Token,
    /// Where the current token starts.
    cur: Ghost<int>,
    /// Where the token after it starts.
    mid: Ghost<int>,
}

impl<'a> Parser<'a> {
    /// The bytes that the parser reads.
    pub closed spec fn source(&self) -> Seq<u8> {
        self.lexer.source()
    }

    /// The position from which the current token was read.
    pub closed spec fn position(&self) -> int {
        self.cur@
    }

    pub closed spec fn wf(&self) -> bool {
        &&& self.lexer.wf()
        &&& self.cur@ <= self.mid@ <= self.lexer.cursor() <= self.source().len()
        &&& lex_step(self.source(), self.cur@) == (self.current_token, self.mid@)
        &&& lex_step(self.source(), self.mid@) == (self.next_token, self.lexer.cursor())
        &&& self.current_token != Token::Eof ==> self.cur@ < self.mid@
        &&& self.next_token != Token::Eof ==> self.mid@ < self.lexer.cursor()
    }

    pub fn new(lexer: Lexer<'a>) -> (r: Self)
        requires
            lexer.wf(),
        ensures
            r.wf(),
            r.source() == lexer.source(),
            r.position() == lexer.cursor(),
    {
        let mut lexer = lexer;
        let ghost start = lexer.cursor();
        proof {
            lemma_lex_step_progress(lexer.source(), start);
        }
        let current_token = lexer.next_token();
        let ghost middle = lexer.cursor();
        proof {
            lemma_lex_step_progress(lexer.source(), middle);
        }
        let next_token = lexer.next_token();
        Parser { lexer, current_token, next_token, cur: Ghost(start), mid: Ghost(middle) }
    }

    /// Parses the statements from the current token to the end of input.
    pub fn parse(&mut self) -> (r: Result<Program, ParseError>)
        requires
            old(self).wf(),
        ensures
            final(self).wf(),
            final(self).source() == old(self).source(),
            match r {
                Ok(program) => parse_program(old(self).source(), old(self).position()) == Ok::<Seq<Statement>, ParseError>(
                    program@,
                ),
                Err(x) => parse_program(old(self).source(), old(self).position()) == Err::<Seq<Statement>, ParseError>(x),
            },
    {
        let ghost s = self.source();
        let ghost start = self.cur@;
        let mut program: Program = Vec::new();
        while self.current_token != Token::Eof
            invariant
                self.wf(),
                self.source() == s,
                s == old(self).source(),
                start == old(self).cur@,
                parse_program(s, start) == prepend(program@, parse_program(s, self.cur@)),
            decreases s.len() - self.cur@,
        {
            let statement = match self.parse_statement() {
                Ok(statement) => statement,
                Err(e) => {
                    return Err(e);
                },
            };
            let ghost before = program@;
            program.push(statement);
            self.advance_token();
            assert(forall|rest: Seq<Statement>|
                #![trigger program@ + rest]
                before + (seq![statement] + rest) == program@ + rest);
        }
        proof {
            assert(program@ + Seq::<Statement>::empty() == program@);
        }
        Ok(program)
    }

    fn parse_statement(&mut self) -> (r: Result<Statement, ParseError>)
        requires
            old(self).wf(),
            old(self).current_token != Token::Eof,
        ensures
            final(self).wf(),
            final(self).source() == old(self).source(),
            final(self).cur@ >= old(self).cur@,
            old(self).current_token == Token::Illegal ==> r == Err::<Statement, ParseError>(
                ParseError::FoundIllegalToken,
            ),
            old(self).current_token != Token::Illegal ==> match parse_expr(
                old(self).source(),
                old(self).cur@,
                Precedence::Lowest,
            ) {
                Ok((e, q)) => r == Ok::<Statement, ParseError>(Statement::Expression(e))
                    && final(self).mid@ == q && final(self).cur@ < final(self).mid@,
                Err(x) => r == Err::<Statement, ParseError>(x),
            },
    {
        match self.current_token {
            Token::Illegal => Err(ParseError::FoundIllegalToken),
            _ => self.parse_expression_statement(),
        }
    }

    fn parse_expression_statement(&mut self) -> (r: Result<Statement, ParseError>)
        requires
            old(self).wf(),
        ensures
            final(self).wf(),
            final(self).source() == old(self).source(),
            final(self).cur@ >= old(self).cur@,
            match parse_expr(old(self).source(), old(self).cur@, Precedence::Lowest) {
                Ok((e, q)) => r == Ok::<Statement, ParseError>(Statement::Expression(e))
                    && final(self).mid@ == q && final(self).cur@ < final(self).mid@,
                Err(x) => r == Err::<Statement, ParseError>(x),
            },
    {
        match self.parse_expression(Precedence::Lowest) {
            Ok(expr) => Ok(Statement::Expression(expr)),
            Err(e) => Err(e),
        }
    }

    fn parse_expression(&mut self, precedence: Precedence) -> (r: Result<Expr, ParseError>)
        requires
            old(self).wf(),
        ensures
            final(self).wf(),
            final(self).source() == old(self).source(),
            final(self).cur@ >= old(self).cur@,
            match parse_expr(old(self).source(), old(self).cur@, precedence) {
                Ok((e, q)) => r == Ok::<Expr, ParseError>(e) && final(self).mid@ == q
                    && final(self).cur@ < final(self).mid@,
                Err(x) => r == Err::<Expr, ParseError>(x),
            },
        decreases old(self).source().len() - old(self).cur@, 2int,
    {
        let ghost s = self.source();
        let ghost start = self.cur@;
        let left = match self.current_token {
            Token::Integer(_) => Ok(self.parse_int_expression()),
            Token::Minus => self.parse_prefix_expression(),
            Token::LeftParen => self.parse_grouped_expression(),
            _ => {
                return Err(ParseError::FoundUnexpectedToken);
            },
        };
        let mut left = match left {
            Ok(e) => e,
            Err(x) => {
                return Err(x);
            },
        };
        while precedence.rank() < self.next_precedence().rank()
            invariant
                self.wf(),
                self.source() == s,
                s == old(self).source(),
                start == old(self).cur@,
                start <= self.cur@ < self.mid@,
                parse_expr(s, start, precedence) == climb(s, left, self.mid@, precedence),
            decreases s.len() - self.mid@,
        {
            self.advance_token();
            left = match self.parse_infix_expression(left) {
                Ok(e) => e,
                Err(x) => {
                    return Err(x);
                },
            };
        }
        Ok(left)
    }

    fn parse_prefix_expression(&mut self) -> (r: Result<Expr, ParseError>)
        requires
            old(self).wf(),
            old(self).current_token == Token::Minus,
        ensures
            final(self).wf(),
            final(self).source() == old(self).source(),
            final(self).cur@ >= old(self).cur@,
            match parse_primary(old(self).source(), old(self).cur@) {
                Ok((e, q)) => r == Ok::<Expr, ParseError>(e) && final(self).mid@ == q
                    && final(self).cur@ < final(self).mid@,
                Err(x) => r == Err::<Expr, ParseError>(x),
            },
        decreases old(self).source().len() - old(self).cur@, 1int,
    {
        let prefix = Prefix::Minus;
        self.advance_token();
        match self.parse_expression(Precedence::Prefix) {
            Ok(expression) => Ok(Expr::Prefix(prefix, Box::new(expression))),
            Err(e) => Err(e),
        }
    }

    /// Folds the binary operator under the cursor, with `left` before it and
    /// the operand after it.
    fn parse_infix_expression(&mut self, left: Expr) -> (r: Result<Expr, ParseError>)
        requires
            old(self).wf(),
            infix_of(old(self).current_token) is Some,
        ensures
            final(self).wf(),
            final(self).source() == old(self).source(),
            final(self).cur@ > old(self).cur@,
            match parse_expr(
                old(self).source(),
                old(self).mid@,
                precedence_of(old(self).current_token),
            ) {
                Ok((right, q)) => r == Ok::<Expr, ParseError>(
                    Expr::Infix(
                        infix_of(old(self).current_token)->0,
                        Box::new(left),
                        Box::new(right),
                    ),
                ) && final(self).mid@ == q && final(self).cur@ < final(self).mid@,
                Err(x) => r == Err::<Expr, ParseError>(x),
            },
        decreases old(self).source().len() - old(self).cur@, 1int,
    {
        let infix = match self.current_token {
            Token::Plus => Infix::Plus,
            Token::Minus => Infix::Minus,
            Token::Asterisk => Infix::Multiply,
            _ => Infix::Divide,
        };
        let precedence = self.current_precedence();
        self.advance_token();
        match self.parse_expression(precedence) {
            Ok(expression) => Ok(Expr::Infix(infix, Box::new(left), Box::new(expression))),
            Err(e) => Err(e),
        }
    }

    fn parse_grouped_expression(&mut self) -> (r: Result<Expr, ParseError>)
        requires
            old(self).wf(),
            old(self).current_token == Token::LeftParen,
        ensures
            final(self).wf(),
            final(self).source() == old(self).source(),
            final(self).cur@ >= old(self).cur@,
            match parse_primary(old(self).source(), old(self).cur@) {
                Ok((e, q)) => r == Ok::<Expr, ParseError>(e) && final(self).mid@ == q
                    && final(self).cur@ < final(self).mid@,
                Err(x) => r == Err::<Expr, ParseError>(x),
            },
        decreases old(self).source().len() - old(self).cur@, 1int,
    {
        self.advance_token();
        let expression = match self.parse_expression(Precedence::Lowest) {
            Ok(e) => e,
            Err(x) => {
                return Err(x);
            },
        };
        if self.expect_next_token(Token::RightParen) {
            Ok(expression)
        } else {
            Err(ParseError::FoundUnterminatedParentheses)
        }
    }

    fn parse_int_expression(&self) -> (r: Expr)
        requires
            self.current_token is Integer,
        ensures
            r == Expr::Literal(Literal::Int(self.current_token->Integer_0)),
    {
        match self.current_token {
            Token::Integer(n) => Expr::Literal(Literal::Int(n)),
            _ => Expr::Literal(Literal::Int(0)),
        }
    }

    fn advance_token(&mut self)
        requires
            old(self).wf(),
        ensures
            final(self).wf(),
            final(self).source() == old(self).source(),
            final(self).cur@ == old(self).mid@,
            final(self).current_token == old(self).next_token,
    {
        proof {
            lemma_lex_step_progress(self.source(), self.lexer.cursor());
        }
        self.current_token = self.next_token;
        self.cur = self.mid;
        self.mid = Ghost(self.lexer.cursor());
        self.next_token = self.lexer.next_token();
    }

    /// Moves on when the token after the current one is `token`.
    fn expect_next_token(&mut self, token: Token) -> (r: bool)
        requires
            old(self).wf(),
        ensures
            r == (old(self).next_token == token),
            r ==> final(self).wf() && final(self).source() == old(self).source()
                && final(self).cur@ == old(self).mid@ && final(self).current_token == token,
            !r ==> *final(self) == *old(self),
    {
        if self.next_token == token {
            self.advance_token();
            true
        } else {
            false
        }
    }

    fn current_precedence(&self) -> (r: Precedence)
        ensures
            r == precedence_of(self.current_token),
    {
        Self::token_to_precedence(&self.current_token)
    }

    fn next_precedence(&self) -> (r: Precedence)
        ensures
            r == precedence_of(self.next_token),
    {
        Self::token_to_precedence(&self.next_token)
    }

    fn token_to_precedence(tok: &Token) -> (r: Precedence)
        ensures
            r == precedence_of(*tok),
    {
        match tok {
            Token::Plus | Token::Minus => Precedence::Sum,
            Token::Slash | Token::Asterisk => Precedence::Product,
            _ => Precedence::Lowest,
        }
    }
}

} // verus!
