use crate::ast::{Expr, Infix, Literal, Statement};
use crate::text::{decimal, push_decimal};
use vstd::prelude::*;
use vstd::string::StringExecFns;

verus! {

/// The lines that open a program: the syntax choice and the entry label.
pub open spec fn prologue() -> Seq<char> {
    ".intel_syntax noprefix\n"@ + ".global main\n"@ + "main:\n"@
}

/// The lines that close a program: the result is popped into the return
/// register.
pub open spec fn epilogue() -> Seq<char> {
    "  pop rax\n"@ + "  ret\n"@
}

/// The instruction that pushes a number.
pub open spec fn push_code(n: i64) -> Seq<char> {
    "  push "@ + decimal(n as int) + "\n"@
}

/// The instructions that pop the right operand into `rdi` and the left one
/// into `rax`, apply the operator, and push `rax`.
pub open spec fn infix_code(op: Infix) -> Seq<char> {
    "  pop rdi\n"@ + "  pop rax\n"@ + match op {
        Infix::Plus => "  add rax, rdi\n"@,
        Infix::Minus => "  sub rax, rdi\n"@,
        Infix::Multiply => "  imul rax, rdi\n"@,
        Infix::Divide => "  cqo\n"@ + "  idiv rdi\n"@,
    } + "  push rax\n"@
}

/// Stack-machine code that leaves the value of `e` on top of the stack.
/// Negation is computed as zero minus the operand.
pub open spec fn expr_code(e: Expr) -> Seq<char>
    decreases e,
{
    match e {
        Expr::Literal(Literal::Int(n)) => push_code(n),
        Expr::Infix(op, l, r) => expr_code(*l) + expr_code(*r) + infix_code(op),
        Expr::Prefix(_, x) => push_code(0) + expr_code(*x) + infix_code(Infix::Minus),
    }
}

/// The whole program for a statement.
pub open spec fn statement_code(s: Statement) -> Seq<char> {
    match s {
        Statement::Expression(e) => prologue() + expr_code(e) + epilogue(),
    }
}

/// Generates assembly for a stack machine from an expression statement.
pub struct Compiler {}

impl Compiler {
    pub fn new() -> (r: Self) {
        Self {  }
    }

    pub fn compile(&self, s: Statement) -> (r: String)
        ensures
            r@ == statement_code(s),
    {
        let mut byte_code = String::new();
        byte_code.append(".intel_syntax noprefix\n");
        byte_code.append(".global main\n");
        byte_code.append("main:\n");
        let ex = match s {
            Statement::Expression(ex) => ex,
        };
        self.compile_expression(&ex, &mut byte_code);
        byte_code.append("  pop rax\n");
        byte_code.append("  ret\n");
        assert(byte_code@ =~= prologue() + expr_code(ex) + epilogue());
        byte_code
    }

    fn compile_literal(&self, n: i64, byte_code: &mut String)
        ensures
            final(byte_code)@ == old(byte_code)@ + push_code(n),
    {
        byte_code.append("  push ");
        push_decimal(byte_code, n);
        byte_code.append("\n");
        assert(byte_code@ =~= old(byte_code)@ + push_code(n));
    }

    fn compile_expression(&self, ex: &Expr, byte_code: &mut String)
        ensures
            final(byte_code)@ == old(byte_code)@ + expr_code(*ex),
        decreases ex,
    {
        match ex {
            Expr::Literal(Literal::Int(i)) => {
                self.compile_literal(*i, byte_code);
            },
            Expr::Infix(i, x, y) => {
                self.compile_expression(x, byte_code);
                self.compile_expression(y, byte_code);
                self.compile_infix(i, byte_code);
                assert(byte_code@ =~= old(byte_code)@ + expr_code(*ex));
            },
            Expr::Prefix(_p, x) => {
                self.compile_literal(0, byte_code);
                self.compile_expression(x, byte_code);
                self.compile_infix(&Infix::Minus, byte_code);
                assert(byte_code@ =~= old(byte_code)@ + expr_code(*ex));
            },
        }
    }

    fn compile_infix(&self, i: &Infix, byte_code: &mut String)
        ensures
            final(byte_code)@ == old(byte_code)@ + infix_code(*i),
    {
        byte_code.append("  pop rdi\n");
        byte_code.append("  pop rax\n");
        match i {
            Infix::Plus => byte_code.append("  add rax, rdi\n"),
            Infix::Minus => byte_code.append("  sub rax, rdi\n"),
            Infix::Multiply => byte_code.append("  imul rax, rdi\n"),
            Infix::Divide => {
                byte_code.append("  cqo\n");
                byte_code.append("  idiv rdi\n");
            },
        }
        byte_code.append("  push rax\n");
        assert(byte_code@ =~= old(byte_code)@ + infix_code(*i));
    }
}

} // verus!
