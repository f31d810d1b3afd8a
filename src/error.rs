//! What can go wrong while reading or evaluating a line.

use vstd::prelude::*;

use crate::ast::Expression;
use crate::identifier::Identifier;
use crate::value::Type;

verus! {

/// Why a line of input was not turned into an instruction.
#[derive(Debug, Clone, Copy, PartialEq, Eq, Structural)]
pub enum ParseError {
    CannotParse,
    SyntaxNotSupported,
}

/// Any failure of one line of input.
#[derive(Debug)]
pub enum Error {
    ParseError(ParseError),
    EvalError(EvalError),
}

/// Why the evaluation of an instruction failed. Where a variant holds an
/// expression, it is the part of the input that the failure is about.
#[derive(Debug)]
pub enum EvalError {
    DivisionByZero(Expression),
    Undefined(Identifier),
    AlreadyDefined(Identifier),
    NotMutable(Option<Expression>),
    TypeMismatch { expression: Expression, expected: Type, found: Option<Type> },
    NonAllocatedCell(Option<Expression>),
    NonInitializedValue(Option<Expression>),
    UseAfterFree(Option<Expression>),
    MovedValue(Option<Expression>),
    CannotMoveOwnedValue(Option<Expression>),
    CannotFreeOwnedValue(Option<Expression>),
    /// A `while` loop ran for more iterations than a `u64` counts; the
    /// expression is the loop's condition.
    LoopLimitExceeded(Expression),
}

/// `err` annotated with `e` where it names no expression yet: the variants
/// that carry an optional expression and were raised without one.
pub open spec fn annotated(err: EvalError, e: Expression) -> EvalError {
    match err {
        EvalError::NotMutable(None) => EvalError::NotMutable(Some(e)),
        EvalError::NonAllocatedCell(None) => EvalError::NonAllocatedCell(Some(e)),
        EvalError::NonInitializedValue(None) => EvalError::NonInitializedValue(Some(e)),
        EvalError::UseAfterFree(None) => EvalError::UseAfterFree(Some(e)),
        _ => err,
    }
}

fn clone_opt_expr(e: &Option<Expression>) -> (r: Option<Expression>)
    ensures
        r == *e,
{
    match e {
        Some(x) => Some(x.clone()),
        None => None,
    }
}

impl Clone for EvalError {
    fn clone(&self) -> (r: EvalError)
        ensures
            r == *self,
    {
        match self {
            EvalError::DivisionByZero(e) => EvalError::DivisionByZero(e.clone()),
            EvalError::Undefined(id) => EvalError::Undefined(id.clone()),
            EvalError::AlreadyDefined(id) => EvalError::AlreadyDefined(id.clone()),
            EvalError::NotMutable(e) => EvalError::NotMutable(clone_opt_expr(e)),
            EvalError::TypeMismatch { expression, expected, found } => EvalError::TypeMismatch {
                expression: expression.clone(),
                expected: *expected,
                found: *found,
            },
            EvalError::NonAllocatedCell(e) => EvalError::NonAllocatedCell(clone_opt_expr(e)),
            EvalError::NonInitializedValue(e) => EvalError::NonInitializedValue(clone_opt_expr(e)),
            EvalError::UseAfterFree(e) => EvalError::UseAfterFree(clone_opt_expr(e)),
            EvalError::MovedValue(e) => EvalError::MovedValue(clone_opt_expr(e)),
            EvalError::CannotMoveOwnedValue(e) => EvalError::CannotMoveOwnedValue(clone_opt_expr(e)),
            EvalError::CannotFreeOwnedValue(e) => EvalError::CannotFreeOwnedValue(clone_opt_expr(e)),
            EvalError::LoopLimitExceeded(e) => EvalError::LoopLimitExceeded(e.clone()),
        }
    }
}

impl EvalError {
    /// Names `e` in this error where it names no expression yet.
    pub fn with_expression_info(&self, e: Expression) -> (r: EvalError)
        ensures
            r == annotated(*self, e),
    {
        match self {
            EvalError::NotMutable(None) => EvalError::NotMutable(Some(e)),
            EvalError::NonAllocatedCell(None) => EvalError::NonAllocatedCell(Some(e)),
            EvalError::NonInitializedValue(None) => EvalError::NonInitializedValue(Some(e)),
            EvalError::UseAfterFree(None) => EvalError::UseAfterFree(Some(e)),
            _ => self.clone(),
        }
    }
}

impl From<ParseError> for Error {
    fn from(e: ParseError) -> (r: Error) {
        Error::ParseError(e)
    }
}

impl vstd::std_specs::convert::FromSpecImpl<ParseError> for Error {
    open spec fn obeys_from_spec() -> bool {
        true
    }

    open spec fn from_spec(e: ParseError) -> Error {
        Error::ParseError(e)
    }
}

impl From<EvalError> for Error {
    fn from(e: EvalError) -> (r: Error) {
        Error::EvalError(e)
    }
}

impl vstd::std_specs::convert::FromSpecImpl<EvalError> for Error {
    open spec fn obeys_from_spec() -> bool {
        true
    }

    open spec fn from_spec(e: EvalError) -> Error {
        Error::EvalError(e)
    }
}

} // verus!
