//! The trees that the parser hands over.

use vstd::prelude::*;

use crate::identifier::Identifier;

verus! {

/// A binary operator.
#[derive(Debug, Clone, Copy, PartialEq, Eq, Structural)]
pub enum Binop {
    Add,
    Sub,
    Mul,
    Div,
    Mod,
    Leq,
    Geq,
    Lt,
    Gt,
    Eq,
    Neq,
    And,
    Or,
}

/// A literal as written in the source.
#[derive(Debug, Clone, Copy, PartialEq, Eq, Structural)]
pub enum ParsedValue {
    Integer(isize),
    Boolean(bool),
    Unit,
}

/// An expression tree, as the parser hands it over.
#[derive(Debug)]
pub enum Expression {
    Const(ParsedValue),
    Identifier(Identifier),
    BinOp(Box<Expression>, Binop, Box<Expression>),
    Conditional { cond: Box<Expression>, cond_true: Box<Expression>, cond_false: Box<Expression> },
    NewPtr,
    Deref(Box<Expression>),
    AmpersAnd(Box<Expression>),
}

/// An instruction tree, as the parser hands it over.
#[derive(Debug)]
pub enum Instruction {
    Expr(Expression),
    Let { id: Identifier, mutable: bool, expr: Expression },
    Block(Vec<Instruction>),
    IfElse { cond: Expression, cond_true: Box<Instruction>, cond_false: Box<Instruction> },
    While(Expression, Box<Instruction>),
    WriteAt(Expression, Expression),
    Free(Expression),
}

impl Clone for Expression {
    fn clone(&self) -> (r: Expression)
        ensures
            r == *self,
        decreases self,
    {
        match self {
            Expression::Const(v) => Expression::Const(*v),
            Expression::Identifier(id) => Expression::Identifier(id.clone()),
            Expression::BinOp(lhs, op, rhs) => Expression::BinOp(
                Box::new((**lhs).clone()),
                *op,
                Box::new((**rhs).clone()),
            ),
            Expression::Conditional { cond, cond_true, cond_false } => Expression::Conditional {
                cond: Box::new((**cond).clone()),
                cond_true: Box::new((**cond_true).clone()),
                cond_false: Box::new((**cond_false).clone()),
            },
            Expression::NewPtr => Expression::NewPtr,
            Expression::Deref(e) => Expression::Deref(Box::new((**e).clone())),
            Expression::AmpersAnd(e) => Expression::AmpersAnd(Box::new((**e).clone())),
        }
    }
}

} // verus!
