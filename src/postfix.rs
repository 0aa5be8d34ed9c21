use crate::ast::{infix_symbol, prefix_symbol, Expr, Literal, Statement};
use crate::text::{decimal, push_decimal};
use vstd::prelude::*;
use vstd::string::StringExecFns;

verus! {

/// Reverse-Polish text of an expression: operands first, each binary
/// operator after its two operands, separated by single spaces. Negation is
/// written in front of its operand, with no space between.
pub open spec fn postfix_text(e: Expr) -> Seq<char>
    decreases e,
{
    match e {
        Expr::Literal(Literal::Int(n)) => decimal(n as int),
        Expr::Prefix(p, x) => prefix_symbol(p) + postfix_text(*x),
        Expr::Infix(op, l, r) => postfix_text(*l) + " "@ + postfix_text(*r) + " "@ + infix_symbol(
            op,
        ),
    }
}

pub open spec fn statement_postfix(s: Statement) -> Seq<char> {
    match s {
        Statement::Expression(e) => postfix_text(e),
    }
}

/// Renders an expression statement in reverse-Polish notation.
pub struct PostfixPrinter {}

impl PostfixPrinter {
    pub fn new() -> (r: Self) {
        PostfixPrinter {  }
    }

    pub fn render(&self, s: Statement) -> (r: String)
        ensures
            r@ == statement_postfix(s),
    {
        let mut out = String::new();
        match s {
            Statement::Expression(e) => {
                self.render_expression(&e, &mut out);
                assert(out@ =~= postfix_text(e));
            },
        }
        out
    }

    fn render_expression(&self, e: &Expr, out: &mut String)
        ensures
            final(out)@ == old(out)@ + postfix_text(*e),
        decreases e,
    {
        match e {
            Expr::Literal(Literal::Int(n)) => {
                push_decimal(out, *n);
            },
            Expr::Prefix(p, x) => {
                out.append(p.symbol());
                self.render_expression(x, out);
                assert(out@ =~= old(out)@ + postfix_text(*e));
            },
            Expr::Infix(op, l, r) => {
                self.render_expression(l, out);
                out.append(" ");
                self.render_expression(r, out);
                out.append(" ");
                out.append(op.symbol());
                assert(out@ =~= old(out)@ + postfix_text(*e));
            },
        }
    }
}

} // verus!
