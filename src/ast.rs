use vstd::prelude::*;

verus! {

/// A program: the expression statements in the order they were written.
pub type Program = Vec<Statement>;

#[derive(PartialEq, Debug)]
pub enum Statement {
    Expression(Expr),
}

/// An expression tree. Every leaf is a literal; children are owned.
#[derive(PartialEq, Debug)]
pub enum Expr {
    Literal(Literal),
    Prefix(Prefix, Box<Expr>),
    Infix(Infix, Box<Expr>, Box<Expr>),
}

#[derive(PartialEq, Eq, Structural, Clone, Copy, Debug)]
pub enum Literal {
    Int(i64),
}

/// The one prefix operator: negation.
#[derive(PartialEq, Eq, Structural, Clone, Copy, Debug)]
pub enum Prefix {
    Minus,
}

#[derive(PartialEq, Eq, Structural, Clone, Copy, Debug)]
pub enum Infix {
    Plus,
    Minus,
    Multiply,
    Divide,
}

/// Binding strength of an operator, weakest first.
#[derive(PartialEq, Eq, Structural, PartialOrd, Clone, Copy, Debug)]
pub enum Precedence {
    Lowest,
    Sum,
    Product,
    Prefix,
}

/// The symbol with which a prefix operator is written.
pub open spec fn prefix_symbol(p: Prefix) -> Seq<char> {
    match p {
        Prefix::Minus => "-"@,
    }
}

/// The symbol with which an infix operator is written.
pub open spec fn infix_symbol(i: Infix) -> Seq<char> {
    match i {
        Infix::Plus => "+"@,
        Infix::Minus => "-"@,
        Infix::Multiply => "*"@,
        Infix::Divide => "/"@,
    }
}

/// The order of the precedence levels as a number.
pub open spec fn rank(p: Precedence) -> nat {
    match p {
        Precedence::Lowest => 0,
        Precedence::Sum => 1,
        Precedence::Product => 2,
        Precedence::Prefix => 3,
    }
}

impl Clone for Expr {
    fn clone(&self) -> (r: Self)
        ensures
            r == *self,
        decreases self,
    {
        match self {
            Expr::Literal(l) => Expr::Literal(*l),
            Expr::Prefix(p, x) => Expr::Prefix(*p, Box::new((**x).clone())),
            Expr::Infix(i, x, y) => Expr::Infix(*i, Box::new((**x).clone()), Box::new((**y).clone())),
        }
    }
}

impl Clone for Statement {
    fn clone(&self) -> (r: Self)
        ensures
            r == *self,
    {
        match self {
            Statement::Expression(e) => Statement::Expression(e.clone()),
        }
    }
}

impl Prefix {
    pub fn symbol(&self) -> (r: &'static str)
        ensures
            r@ == prefix_symbol(*self),
    {
        match self {
            Prefix::Minus => "-",
        }
    }
}

impl Infix {
    pub fn symbol(&self) -> (r: &'static str)
        ensures
            r@ == infix_symbol(*self),
    {
        match self {
            Infix::Plus => "+",
            Infix::Minus => "-",
            Infix::Multiply => "*",
            Infix::Divide => "/",
        }
    }
}

impl Precedence {
    /// The level as a number; a higher number binds tighter.
    pub fn rank(&self) -> (r: u8)
        ensures
            r == rank(*self),
    {
        match self {
            Precedence::Lowest => 0,
            Precedence::Sum => 1,
            Precedence::Product => 2,
            Precedence::Prefix => 3,
        }
    }
}

} // verus!
