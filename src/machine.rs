use crate::ast::{Expr, Infix, Literal, Statement};
use crate::compiler::{epilogue, expr_code, infix_code, prologue, push_code, statement_code};
use crate::evaluator::{eval_expr, eval_stmt, in_i64, trunc_div};
use vstd::arithmetic::div_mod::lemma_small_mod;
use vstd::prelude::*;

verus! {

/// An instruction of the stack machine that the compiler targets, as the
/// model that its text stands for.
pub enum Instr {
    /// Push a number.
    Push(i64),
    /// Pop the right operand, then the left one, and push the result.
    Apply(Infix),
}

/// The number of values that a 64-bit register holds.
pub open spec fn word_modulus() -> int {
    u64::MAX as int + 1
}

/// Two's-complement wrap-around of `v` into the `i64` range, as the machine's
/// 64-bit registers do.
pub open spec fn wrap(v: int) -> i64 {
    ((v - i64::MIN) % word_modulus() + i64::MIN) as i64
}

/// What the machine computes for an operator: addition, subtraction and
/// multiplication wrap around; division truncates toward zero and traps
/// (`None`) on a zero divisor or a quotient out of range.
pub open spec fn machine_op(op: Infix, a: i64, b: i64) -> Option<i64> {
    match op {
        Infix::Plus => Some(wrap(a + b)),
        Infix::Minus => Some(wrap(a - b)),
        Infix::Multiply => Some(wrap(a * b)),
        Infix::Divide => if b == 0 || !in_i64(trunc_div(a as int, b as int)) {
            None
        } else {
            Some(trunc_div(a as int, b as int) as i64)
        },
    }
}

/// One instruction run on a stack whose top is its last element.
pub open spec fn step(i: Instr, st: Seq<i64>) -> Option<Seq<i64>> {
    match i {
        Instr::Push(n) => Some(st.push(n)),
        Instr::Apply(op) => if st.len() < 2 {
            None
        } else {
            match machine_op(op, st[st.len() - 2], st[st.len() - 1]) {
                Some(v) => Some(st.subrange(0, st.len() - 2).push(v)),
                None => None,
            }
        },
    }
}

/// The stack after running `code` from `st`, or `None` where it traps.
pub open spec fn run(code: Seq<Instr>, st: Seq<i64>) -> Option<Seq<i64>>
    decreases code.len(),
{
    if code.len() == 0 {
        Some(st)
    } else {
        match step(code[0], st) {
            Some(next) => run(code.drop_first(), next),
            None => None,
        }
    }
}

/// The instructions that the compiler emits for an expression.
pub open spec fn expr_instrs(e: Expr) -> Seq<Instr>
    decreases e,
{
    match e {
        Expr::Literal(Literal::Int(n)) => seq![Instr::Push(n)],
        Expr::Infix(op, l, r) => expr_instrs(*l) + expr_instrs(*r) + seq![Instr::Apply(op)],
        Expr::Prefix(_, x) => seq![Instr::Push(0)] + expr_instrs(*x) + seq![
            Instr::Apply(Infix::Minus),
        ],
    }
}

pub open spec fn instr_text(i: Instr) -> Seq<char> {
    match i {
        Instr::Push(n) => push_code(n),
        Instr::Apply(op) => infix_code(op),
    }
}

/// The text of a sequence of instructions, one after the other.
pub open spec fn code_text(code: Seq<Instr>) -> Seq<char>
    decreases code.len(),
{
    if code.len() == 0 {
        Seq::empty()
    } else {
        instr_text(code[0]) + code_text(code.drop_first())
    }
}

pub proof fn lemma_code_text_single(i: Instr)
    ensures
        code_text(seq![i]) == instr_text(i),
{
    assert(seq![i].drop_first() =~= Seq::<Instr>::empty());
    assert(code_text(Seq::<Instr>::empty()) == Seq::<char>::empty());
    assert(seq![i][0] == i);
    assert(instr_text(i) + Seq::<char>::empty() =~= instr_text(i));
}

pub proof fn lemma_run_single(i: Instr, st: Seq<i64>)
    ensures
        run(seq![i], st) == step(i, st),
{
    assert(seq![i].drop_first() =~= Seq::<Instr>::empty());
    if let Some(next) = step(i, st) {
        assert(run(Seq::<Instr>::empty(), next) == Some(next));
    }
}

pub proof fn lemma_code_text_concat(a: Seq<Instr>, b: Seq<Instr>)
    ensures
        code_text(a + b) == code_text(a) + code_text(b),
    decreases a.len(),
{
    if a.len() == 0 {
        assert(a + b =~= b);
        assert(code_text(a) + code_text(b) =~= code_text(b));
    } else {
        assert((a + b).drop_first() =~= a.drop_first() + b);
        lemma_code_text_concat(a.drop_first(), b);
        assert(code_text(a + b) =~= code_text(a) + code_text(b));
    }
}

pub proof fn lemma_run_concat(a: Seq<Instr>, b: Seq<Instr>, st: Seq<i64>)
    ensures
        run(a + b, st) == match run(a, st) {
            Some(mid) => run(b, mid),
            None => None,
        },
    decreases a.len(),
{
    if a.len() == 0 {
        assert(a + b =~= b);
    } else {
        assert((a + b).drop_first() =~= a.drop_first() + b);
        assert((a + b)[0] == a[0]);
        if let Some(next) = step(a[0], st) {
            lemma_run_concat(a.drop_first(), b, next);
        }
    }
}

/// The compiler's text for an expression is the text of its instructions.
pub proof fn lemma_expr_code_is_instr_text(e: Expr)
    ensures
        expr_code(e) == code_text(expr_instrs(e)),
    decreases e,
{
    match e {
        Expr::Literal(Literal::Int(n)) => {
            lemma_code_text_single(Instr::Push(n));
        },
        Expr::Infix(op, l, r) => {
            lemma_expr_code_is_instr_text(*l);
            lemma_expr_code_is_instr_text(*r);
            let tail = seq![Instr::Apply(op)];
            lemma_code_text_single(Instr::Apply(op));
            lemma_code_text_concat(expr_instrs(*l), expr_instrs(*r));
            lemma_code_text_concat(expr_instrs(*l) + expr_instrs(*r), tail);
        },
        Expr::Prefix(_, x) => {
            lemma_expr_code_is_instr_text(*x);
            let head = seq![Instr::Push(0)];
            let tail = seq![Instr::Apply(Infix::Minus)];
            lemma_code_text_single(Instr::Push(0));
            lemma_code_text_single(Instr::Apply(Infix::Minus));
            lemma_code_text_concat(head, expr_instrs(*x));
            lemma_code_text_concat(head + expr_instrs(*x), tail);
        },
    }
}

pub proof fn lemma_wrap_in_range(v: int)
    requires
        in_i64(v),
    ensures
        wrap(v) == v,
{
    lemma_small_mod((v - i64::MIN) as nat, word_modulus() as nat);
}

/// Running an expression's instructions pushes its value, on any stack,
/// wherever evaluation succeeds.
pub proof fn lemma_run_expr(e: Expr, st: Seq<i64>)
    requires
        eval_expr(e) is Ok,
    ensures
        run(expr_instrs(e), st) == Some(st.push(eval_expr(e)->Ok_0)),
    decreases e,
{
    match e {
        Expr::Literal(Literal::Int(n)) => {
            lemma_run_single(Instr::Push(n), st);
        },
        Expr::Infix(op, l, r) => {
            let a = eval_expr(*l)->Ok_0;
            let b = eval_expr(*r)->Ok_0;
            lemma_run_expr(*l, st);
            lemma_run_expr(*r, st.push(a));
            let tail = seq![Instr::Apply(op)];
            lemma_run_concat(expr_instrs(*l), expr_instrs(*r), st);
            lemma_run_concat(expr_instrs(*l) + expr_instrs(*r), tail, st);
            let two = st.push(a).push(b);
            assert(two[two.len() - 2] == a && two[two.len() - 1] == b);
            assert(two.subrange(0, two.len() - 2) =~= st);
            match op {
                Infix::Plus => lemma_wrap_in_range(a + b),
                Infix::Minus => lemma_wrap_in_range(a - b),
                Infix::Multiply => lemma_wrap_in_range(a * b),
                Infix::Divide => {},
            }
            lemma_run_single(Instr::Apply(op), two);
        },
        Expr::Prefix(_, x) => {
            let v = eval_expr(*x)->Ok_0;
            let head = seq![Instr::Push(0)];
            let tail = seq![Instr::Apply(Infix::Minus)];
            lemma_run_single(Instr::Push(0), st);
            lemma_run_expr(*x, st.push(0));
            lemma_run_concat(head, expr_instrs(*x), st);
            lemma_run_concat(head + expr_instrs(*x), tail, st);
            let two = st.push(0).push(v);
            assert(two[two.len() - 2] == 0 && two[two.len() - 1] == v);
            assert(two.subrange(0, two.len() - 2) =~= st);
            lemma_wrap_in_range(0 - v);
            lemma_run_single(Instr::Apply(Infix::Minus), two);
        },
    }
}

/// The instructions for a statement's expression.
pub open spec fn statement_instrs(s: Statement) -> Seq<Instr> {
    match s {
        Statement::Expression(e) => expr_instrs(e),
    }
}

/// Code generation agrees with evaluation: the compiled program is the
/// prologue, the text of the statement's instructions and the epilogue, and
/// wherever the evaluator finds a value, running those instructions on any
/// stack leaves exactly that value on top, where the epilogue pops it into the
/// return register.
pub proof fn lemma_compiled_code_agrees_with_eval(s: Statement, st: Seq<i64>)
    ensures
        statement_code(s) == prologue() + code_text(statement_instrs(s)) + epilogue(),
        eval_stmt(s) is Ok ==> run(statement_instrs(s), st) == Some(
            st.push(eval_stmt(s)->Ok_0),
        ),
{
    let Statement::Expression(e) = s;
    lemma_expr_code_is_instr_text(e);
    if eval_expr(e) is Ok {
        lemma_run_expr(e, st);
    }
}

} // verus!
