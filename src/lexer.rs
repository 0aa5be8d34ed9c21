use crate::token::Token;
use vstd::prelude::*;
use vstd::string::StringSliceAdditionalSpecFns;

verus! {

/// Space, tab, line feed and carriage return separate tokens.
pub open spec fn is_space(b: u8) -> bool {
    b == 32 || b == 9 || b == 10 || b == 13
}

pub open spec fn is_digit(b: u8) -> bool {
    48 <= b <= 57
}

/// The byte at `i`; past either end of the input it reads as the zero byte,
/// which marks the end of input.
pub open spec fn byte_at(s: Seq<u8>, i: int) -> u8 {
    if 0 <= i < s.len() {
        s[i]
    } else {
        0
    }
}

/// The first position at or after `p` that does not hold a space.
pub open spec fn skip_spaces(s: Seq<u8>, p: int) -> int
    decreases s.len() - p,
{
    if 0 <= p < s.len() && is_space(s[p]) {
        skip_spaces(s, p + 1)
    } else {
        p
    }
}

/// The end of the run of digits that starts at `p`.
pub open spec fn digits_end(s: Seq<u8>, p: int) -> int
    decreases s.len() - p,
{
    if 0 <= p < s.len() && is_digit(s[p]) {
        digits_end(s, p + 1)
    } else {
        p
    }
}

/// The decimal value of the digits `s[p..q]`.
pub open spec fn digits_value(s: Seq<u8>, p: int, q: int) -> int
    decreases q - p,
{
    if q <= p {
        0
    } else {
        10 * digits_value(s, p, q - 1) + (s[q - 1] - 48)
    }
}

/// The token that starts at or after position `p`, and the position just after it.
/// A run of digits whose value does not fit in an `i64` is `Illegal`. The end of
/// input is `Eof`, and reading on from there gives `Eof` again.
pub open spec fn lex_step(s: Seq<u8>, p: int) -> (Token, int) {
    let q = skip_spaces(s, p);
    let b = byte_at(s, q);
    if is_digit(b) {
        let e = digits_end(s, q);
        let v = digits_value(s, q, e);
        if v <= i64::MAX {
            (Token::Integer(v as i64), e)
        } else {
            (Token::Illegal, e)
        }
    } else if b == 43 {
        (Token::Plus, q + 1)
    } else if b == 45 {
        (Token::Minus, q + 1)
    } else if b == 42 {
        (Token::Asterisk, q + 1)
    } else if b == 47 {
        (Token::Slash, q + 1)
    } else if b == 40 {
        (Token::LeftParen, q + 1)
    } else if b == 41 {
        (Token::RightParen, q + 1)
    } else if b == 0 {
        (Token::Eof, q)
    } else {
        (Token::Illegal, q + 1)
    }
}

pub proof fn lemma_skip_spaces_bounds(s: Seq<u8>, p: int)
    ensures
        skip_spaces(s, p) >= p,
        p <= s.len() ==> skip_spaces(s, p) <= s.len(),
    decreases s.len() - p,
{
    if 0 <= p < s.len() && is_space(s[p]) {
        lemma_skip_spaces_bounds(s, p + 1);
    }
}

pub proof fn lemma_digits_end_bounds(s: Seq<u8>, p: int)
    ensures
        digits_end(s, p) >= p,
        p <= s.len() ==> digits_end(s, p) <= s.len(),
        0 <= p < s.len() && is_digit(s[p]) ==> digits_end(s, p) > p,
    decreases s.len() - p,
{
    if 0 <= p < s.len() && is_digit(s[p]) {
        lemma_digits_end_bounds(s, p + 1);
    }
}

/// Reading a token never moves backwards nor past the end of input, and every
/// token but `Eof` takes at least one byte.
pub proof fn lemma_lex_step_progress(s: Seq<u8>, p: int)
    ensures
        p <= lex_step(s, p).1,
        p <= s.len() ==> lex_step(s, p).1 <= s.len(),
        lex_step(s, p).0 != Token::Eof ==> p < lex_step(s, p).1 <= s.len(),
{
    let q = skip_spaces(s, p);
    lemma_skip_spaces_bounds(s, p);
    lemma_digits_end_bounds(s, q);
}

/// A forward cursor over the bytes of an input text that hands out one token
/// per call.
pub struct Lexer<'a> {
    input: &'a [u8],
    pos: usize,
    ch: u8,
}

impl<'a> Lexer<'a> {
    /// The bytes that the lexer reads.
    pub closed spec fn source(&self) -> Seq<u8> {
        self.input@
    }

    /// The position from which the next token is read.
    pub closed spec fn cursor(&self) -> int {
        self.pos as int
    }

    pub closed spec fn wf(&self) -> bool {
        &&& self.pos <= self.input@.len()
        &&& self.ch == byte_at(self.input@, self.pos as int)
    }

    pub fn new(input: &'a str) -> (r: Self)
        ensures
            r.wf(),
            r.source() == input.spec_bytes(),
            r.cursor() == 0,
    {
        let bytes = input.as_bytes();
        let ch: u8 = if bytes.len() > 0 {
            bytes[0]
        } else {
            0
        };
        Lexer { input: bytes, pos: 0, ch }
    }

    /// Reads the next token and moves past it.
    pub fn next_token(&mut self) -> (t: Token)
        requires
            old(self).wf(),
        ensures
            final(self).wf(),
            final(self).source() == old(self).source(),
            0 <= final(self).cursor() <= final(self).source().len(),
            (t, final(self).cursor()) == lex_step(old(self).source(), old(self).cursor()),
    {
        self.skip_whitespaces();
        if 48 <= self.ch && self.ch <= 57 {
            return self.consume_number();
        }
        let token = if self.ch == 43 {
            Token::Plus
        } else if self.ch == 45 {
            Token::Minus
        } else if self.ch == 42 {
            Token::Asterisk
        } else if self.ch == 47 {
            Token::Slash
        } else if self.ch == 40 {
            Token::LeftParen
        } else if self.ch == 41 {
            Token::RightParen
        } else if self.ch == 0 {
            return Token::Eof;
        } else {
            Token::Illegal
        };
        self.read_char();
        token
    }

    /// Reads the run of digits under the cursor as a number.
    fn consume_number(&mut self) -> (t: Token)
        requires
            old(self).wf(),
            is_digit(old(self).ch),
        ensures
            final(self).wf(),
            final(self).source() == old(self).source(),
            final(self).cursor() == digits_end(old(self).source(), old(self).cursor()),
            ({
                let v = digits_value(old(self).source(), old(self).cursor(), final(self).cursor());
                t == if v <= i64::MAX {
                    Token::Integer(v as i64)
                } else {
                    Token::Illegal
                }
            }),
    {
        let ghost s = self.input@;
        let ghost start = self.pos as int;
        let mut value: i64 = 0;
        let mut overflow = false;
        while 48 <= self.ch && self.ch <= 57
            invariant
                self.wf(),
                self.input@ == s,
                start <= self.pos,
                digits_end(s, start) == digits_end(s, self.pos as int),
                digits_value(s, start, self.pos as int) >= 0,
                overflow ==> digits_value(s, start, self.pos as int) > i64::MAX,
                !overflow ==> value == digits_value(s, start, self.pos as int),
            decreases s.len() - self.pos,
        {
            let d = (self.ch - 48) as i64;
            if !overflow {
                match value.checked_mul(10) {
                    Some(m) => match m.checked_add(d) {
                        Some(v) => {
                            value = v;
                        },
                        None => {
                            overflow = true;
                        },
                    },
                    None => {
                        overflow = true;
                    },
                }
            }
            self.read_char();
        }
        if overflow {
            Token::Illegal
        } else {
            Token::Integer(value)
        }
    }

    /// Moves the cursor one byte forward, unless it is at the end of input.
    fn read_char(&mut self)
        requires
            old(self).wf(),
        ensures
            final(self).wf(),
            final(self).source() == old(self).source(),
            final(self).cursor() == if old(self).pos < old(self).input@.len() {
                old(self).cursor() + 1
            } else {
                old(self).cursor()
            },
    {
        if self.pos < self.input.len() {
            self.pos = self.pos + 1;
        }
        self.ch = if self.pos < self.input.len() {
            self.input[self.pos]
        } else {
            0
        };
    }

    fn skip_whitespaces(&mut self)
        requires
            old(self).wf(),
        ensures
            final(self).wf(),
            final(self).source() == old(self).source(),
            final(self).cursor() == skip_spaces(old(self).source(), old(self).cursor()),
    {
        let ghost s = self.input@;
        let ghost start = self.pos as int;
        while self.ch == 32 || self.ch == 9 || self.ch == 10 || self.ch == 13
            invariant
                self.wf(),
                self.input@ == s,
                skip_spaces(s, start) == skip_spaces(s, self.pos as int),
            decreases s.len() - self.pos,
        {
            self.read_char();
        }
    }
}

} // verus!
