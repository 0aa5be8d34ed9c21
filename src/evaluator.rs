use crate::ast::{Expr, Infix, Literal, Prefix, Program, Statement};
use crate::error::RuntimeError;
use crate::object::Object;
use vstd::prelude::*;

verus! {

/// Whether `v` fits in an `i64`.
pub open spec fn in_i64(v: int) -> bool {
    i64::MIN <= v <= i64::MAX
}

/// `v` as an `i64`, or an overflow error where it does not fit.
pub open spec fn checked(v: int) -> Result<i64, RuntimeError> {
    if in_i64(v) {
        Ok(v as i64)
    } else {
        Err(RuntimeError::IntegerOverflow)
    }
}

pub open spec fn abs(v: int) -> int {
    if v < 0 {
        -v
    } else {
        v
    }
}

/// Division that truncates toward zero: the quotient of the magnitudes,
/// negated where the signs differ.
pub open spec fn trunc_div(a: int, b: int) -> int {
    if (a < 0) == (b < 0) {
        abs(a) / abs(b)
    } else {
        -(abs(a) / abs(b))
    }
}

/// A binary operator applied to two numbers. Division by zero fails, and so
/// does a result that does not fit in an `i64`.
pub open spec fn apply_infix(op: Infix, a: i64, b: i64) -> Result<i64, RuntimeError> {
    match op {
        Infix::Plus => checked(a + b),
        Infix::Minus => checked(a - b),
        Infix::Multiply => checked(a * b),
        Infix::Divide => if b == 0 {
            Err(RuntimeError::DivideByZero)
        } else {
            checked(trunc_div(a as int, b as int))
        },
    }
}

/// The value of an expression. The left operand is evaluated first, and its
/// error is the one reported.
pub open spec fn eval_expr(e: Expr) -> Result<i64, RuntimeError>
    decreases e,
{
    match e {
        Expr::Literal(Literal::Int(n)) => Ok(n),
        Expr::Prefix(Prefix::Minus, x) => match eval_expr(*x) {
            Ok(v) => checked(-v),
            Err(err) => Err(err),
        },
        Expr::Infix(op, l, r) => match eval_expr(*l) {
            Err(err) => Err(err),
            Ok(a) => match eval_expr(*r) {
                Err(err) => Err(err),
                Ok(b) => apply_infix(op, a, b),
            },
        },
    }
}

pub open spec fn eval_stmt(s: Statement) -> Result<i64, RuntimeError> {
    match s {
        Statement::Expression(e) => eval_expr(e),
    }
}

/// The value of a program: that of its first statement.
pub open spec fn eval_program(p: Seq<Statement>) -> Result<i64, RuntimeError> {
    if p.len() == 0 {
        Err(RuntimeError::FoundNoProgram)
    } else {
        eval_stmt(p[0])
    }
}

/// A failure in the right operand is reported once the left operand has a
/// value: it is not masked by the left operand's success.
pub proof fn lemma_right_fault_not_masked(op: Infix, l: Expr, r: Expr)
    requires
        eval_expr(l) is Ok,
        eval_expr(r) is Err,
    ensures
        eval_expr(Expr::Infix(op, Box::new(l), Box::new(r))) == eval_expr(r),
{
}

/// Of two failing operands, the left one's error is the one reported.
pub proof fn lemma_left_fault_first(op: Infix, l: Expr, r: Expr)
    requires
        eval_expr(l) is Err,
    ensures
        eval_expr(Expr::Infix(op, Box::new(l), Box::new(r))) == eval_expr(l),
{
}

/// Dividing by an operand whose value is zero fails with `DivideByZero`
/// whenever the dividend has a value.
pub proof fn lemma_divide_by_zero(l: Expr, r: Expr)
    requires
        eval_expr(l) is Ok,
        eval_expr(r) == Ok::<i64, RuntimeError>(0),
    ensures
        eval_expr(Expr::Infix(Infix::Divide, Box::new(l), Box::new(r))) == Err::<
            i64,
            RuntimeError,
        >(RuntimeError::DivideByZero),
{
}

/// Division truncates toward zero: the quotient is never larger in magnitude
/// than the exact one, the remainder is smaller than the divisor in magnitude,
/// and the quotient is negative only where the signs of the operands differ.
pub proof fn lemma_division_truncates(a: int, b: int)
    requires
        b != 0,
    ensures
        abs(trunc_div(a, b) * b) <= abs(a),
        abs(a) - abs(trunc_div(a, b) * b) < abs(b),
        trunc_div(a, b) < 0 ==> (a < 0) != (b < 0),
        (a - trunc_div(a, b) * b == 0) || ((a - trunc_div(a, b) * b < 0) == (a < 0)),
{
    let q = abs(a) / abs(b);
    assert(0 <= q * abs(b) <= abs(a) && abs(a) - q * abs(b) < abs(b)) by (nonlinear_arith)
        requires
            abs(a) >= 0,
            abs(b) > 0,
            q == abs(a) / abs(b),
    ;
    assert(abs(trunc_div(a, b) * b) == q * abs(b)) by (nonlinear_arith)
        requires
            q >= 0,
            trunc_div(a, b) == q || trunc_div(a, b) == -q,
            abs(b) == b || abs(b) == -b,
            abs(trunc_div(a, b) * b) == trunc_div(a, b) * b || abs(trunc_div(a, b) * b) == -(
            trunc_div(a, b) * b),
            abs(trunc_div(a, b) * b) >= 0,
    ;
}

/// Reduces an expression tree to a number, depth first.
pub struct Evaluator {}

impl Evaluator {
    pub fn new() -> (r: Self) {
        Evaluator {  }
    }

    pub fn eval(&mut self, program: Program) -> (r: Result<Object, RuntimeError>)
        ensures
            r == match eval_program(program@) {
                Ok(v) => Ok(Object::Int(v)),
                Err(x) => Err(x),
            },
    {
        if program.len() == 0 {
            return Err(RuntimeError::FoundNoProgram);
        }
        match self.eval_statement(&program[0]) {
            Ok(v) => Ok(Object::Int(v)),
            Err(x) => Err(x),
        }
    }

    fn eval_statement(&self, statement: &Statement) -> (r: Result<i64, RuntimeError>)
        ensures
            r == eval_stmt(*statement),
    {
        match statement {
            Statement::Expression(expression) => self.eval_expression(expression),
        }
    }

    fn eval_expression(&self, expression: &Expr) -> (r: Result<i64, RuntimeError>)
        ensures
            r == eval_expr(*expression),
        decreases expression,
    {
        match expression {
            Expr::Literal(literal) => Ok(self.eval_literal(literal)),
            Expr::Prefix(prefix, right_expression) => match self.eval_expression(right_expression) {
                Ok(right) => self.eval_prefix_expression(prefix, right),
                Err(e) => Err(e),
            },
            Expr::Infix(infix, left_expression, right_expression) => {
                let left = match self.eval_expression(left_expression) {
                    Ok(v) => v,
                    Err(e) => {
                        return Err(e);
                    },
                };
                let right = match self.eval_expression(right_expression) {
                    Ok(v) => v,
                    Err(e) => {
                        return Err(e);
                    },
                };
                self.eval_infix_expression(infix, left, right)
            },
        }
    }

    fn eval_prefix_expression(&self, prefix: &Prefix, right: i64) -> (r: Result<i64, RuntimeError>)
        ensures
            r == checked(-right),
    {
        match prefix {
            Prefix::Minus => self.eval_minus_prefix(right),
        }
    }

    fn eval_minus_prefix(&self, right: i64) -> (r: Result<i64, RuntimeError>)
        ensures
            r == checked(-right),
    {
        match 0i64.checked_sub(right) {
            Some(v) => Ok(v),
            None => Err(RuntimeError::IntegerOverflow),
        }
    }

    fn eval_infix_expression(&self, infix: &Infix, left: i64, right: i64) -> (r: Result<
        i64,
        RuntimeError,
    >)
        ensures
            r == apply_infix(*infix, left, right),
    {
        let result = match infix {
            Infix::Plus => left.checked_add(right),
            Infix::Minus => left.checked_sub(right),
            Infix::Multiply => left.checked_mul(right),
            Infix::Divide => {
                if right == 0 {
                    return Err(RuntimeError::DivideByZero);
                }
                left.checked_div(right)
            },
        };
        match result {
            Some(v) => Ok(v),
            None => Err(RuntimeError::IntegerOverflow),
        }
    }

    fn eval_literal(&self, literal: &Literal) -> (r: i64)
        ensures
            r == literal->Int_0,
    {
        match literal {
            Literal::Int(value) => *value,
        }
    }
}

} // verus!
