//! The meaning of expressions and instructions, as spec functions over the
//! model of memory. The evaluator in `eval` is proved to compute exactly this.

use vstd::prelude::*;

use crate::ast::{Binop, Expression, Instruction};
use crate::error::EvalError;
use crate::heap::alloc_slot;
use crate::identifier::Identifier;
use crate::memory::{Address, MemoryView, mem_after_alloc, mem_free, mem_read, mem_write};
use crate::namespacestack::{stack_address, stack_declare, stack_find, stack_set};
use crate::pointer::pointer_to;
use crate::value::{Type, Value, type_of, value_of_literal, values_equal};

verus! {

/// The most iterations that one execution of a `while` loop may run.
pub const MAX_ITERATIONS: u64 = 0xffff_ffff_ffff_ffff;

/// An operand that must be an integer: `r` is what evaluating `e` gave.
pub open spec fn as_int(r: Result<Value, EvalError>, e: Expression) -> Result<isize, EvalError> {
    match r {
        Ok(Value::Integer(i)) => Ok(i),
        Ok(v) => Err(EvalError::TypeMismatch { expression: e, expected: Type::Int, found: Some(type_of(v)) }),
        Err(x) => Err(x),
    }
}

/// An operand that must be a boolean: `r` is what evaluating `e` gave.
pub open spec fn as_bool(r: Result<Value, EvalError>, e: Expression) -> Result<bool, EvalError> {
    match r {
        Ok(Value::Boolean(b)) => Ok(b),
        Ok(v) => Err(EvalError::TypeMismatch { expression: e, expected: Type::Bool, found: Some(type_of(v)) }),
        Err(x) => Err(x),
    }
}

/// Integer division, rounding toward zero; the one quotient that does not fit
/// a word, `isize::MIN / -1`, wraps around to `isize::MIN`.
pub open spec fn quotient(a: isize, b: isize) -> isize {
    match a.checked_div(b) {
        Some(q) => q,
        None => a,
    }
}

/// The remainder of `quotient`, with the sign of `a`; `isize::MIN % -1` is 0.
pub open spec fn remainder(a: isize, b: isize) -> isize {
    match a.checked_rem(b) {
        Some(r) => r,
        None => 0,
    }
}

/// The result of an operator on two integers. Sums, differences and products
/// wrap around on overflow.
pub open spec fn int_op(op: Binop, a: isize, b: isize) -> Value {
    match op {
        Binop::Add => Value::Integer(a.wrapping_add(b)),
        Binop::Sub => Value::Integer(a.wrapping_sub(b)),
        Binop::Mul => Value::Integer(a.wrapping_mul(b)),
        Binop::Div => Value::Integer(quotient(a, b)),
        Binop::Mod => Value::Integer(remainder(a, b)),
        Binop::Leq => Value::Boolean(a <= b),
        Binop::Geq => Value::Boolean(a >= b),
        Binop::Lt => Value::Boolean(a < b),
        Binop::Gt => Value::Boolean(a > b),
        _ => Value::Unit,
    }
}

/// The value of `e` in memory `m`, and the memory afterwards. Operands are
/// evaluated left to right and the first failure ends the evaluation.
pub open spec fn eval_spec(e: Expression, m: MemoryView) -> (Result<Value, EvalError>, MemoryView)
    decreases e,
{
    match e {
        Expression::Const(v) => (Ok(value_of_literal(v)), m),
        Expression::Identifier(id) => (stack_find(m.frames, id), m),
        Expression::BinOp(l, op, r) => {
            let (r1, m1) = eval_spec(*l, m);
            let (r2, m2) = eval_spec(*r, m1);
            if op is Eq || op is Neq {
                match r1 {
                    Err(x) => (Err(x), m1),
                    Ok(a) => match r2 {
                        Err(x) => (Err(x), m2),
                        Ok(b) => (equality_spec(op, a, *r, b), m2),
                    },
                }
            } else if op is And || op is Or {
                match as_bool(r1, *l) {
                    Err(x) => (Err(x), m1),
                    Ok(a) => match as_bool(r2, *r) {
                        Err(x) => (Err(x), m2),
                        Ok(b) => (Ok(Value::Boolean(if op is And { a && b } else { a || b })), m2),
                    },
                }
            } else {
                match as_int(r1, *l) {
                    Err(x) => (Err(x), m1),
                    Ok(a) => match as_int(r2, *r) {
                        Err(x) => (Err(x), m2),
                        Ok(b) => (
                            if (op is Div || op is Mod) && b == 0 {
                                Err(EvalError::DivisionByZero(*r))
                            } else {
                                Ok(int_op(op, a, b))
                            },
                            m2,
                        ),
                    },
                }
            }
        },
        Expression::Conditional { cond, cond_true, cond_false } => {
            let (rc, m1) = eval_spec(*cond, m);
            match as_bool(rc, *cond) {
                Err(x) => (Err(x), m1),
                Ok(true) => eval_spec(*cond_true, m1),
                Ok(false) => eval_spec(*cond_false, m1),
            }
        },
        Expression::NewPtr => (
            Ok(Value::Pointer(pointer_to(Address::HeapAddress(alloc_slot(m.heap) as usize)))),
            mem_after_alloc(m),
        ),
        Expression::Deref(inner) => {
            let (r1, m1) = eval_spec(*inner, m);
            match r1 {
                Err(x) => (Err(x), m1),
                Ok(Value::Pointer(p)) => (
                    match mem_read(m1, p.addr()) {
                        Ok(v) => Ok(v),
                        Err(EvalError::NonInitializedValue(_)) => Err(
                            EvalError::NonInitializedValue(Some(*inner)),
                        ),
                        Err(EvalError::NonAllocatedCell(_)) => Err(
                            EvalError::NonAllocatedCell(Some(*inner)),
                        ),
                        Err(x) => Err(x),
                    },
                    m1,
                ),
                Ok(v) => (
                    Err(EvalError::TypeMismatch { expression: e, expected: Type::Pointer, found: Some(type_of(v)) }),
                    m1,
                ),
            }
        },
        Expression::AmpersAnd(inner) => pointer_result(address_spec(*inner, m)),
    }
}

/// The address that `&e` takes: only a name has one, the binding it denotes.
/// Any other operand, `new` included, is a type mismatch that leaves memory
/// as it was.
pub open spec fn address_spec(e: Expression, m: MemoryView) -> (Result<Address, EvalError>, MemoryView) {
    match e {
        Expression::Identifier(id) => (stack_address(m.frames, id), m),
        _ => (Err(EvalError::TypeMismatch { expression: e, expected: Type::Pointer, found: None }), m),
    }
}

/// A pointer to the address that `ra` found.
pub open spec fn pointer_result(ra: (Result<Address, EvalError>, MemoryView)) -> (Result<Value, EvalError>, MemoryView) {
    match ra.0 {
        Ok(a) => (Ok(Value::Pointer(pointer_to(a))), ra.1),
        Err(x) => (Err(x), ra.1),
    }
}

/// The result of `==` or `!=` on `a` and the value `b` of `r`: both must
/// have the same type.
pub open spec fn equality_spec(op: Binop, a: Value, r: Expression, b: Value) -> Result<Value, EvalError> {
    if type_of(a) != type_of(b) {
        Err(EvalError::TypeMismatch { expression: r, expected: type_of(a), found: Some(type_of(b)) })
    } else if op is Eq {
        Ok(Value::Boolean(values_equal(a, b)))
    } else {
        Ok(Value::Boolean(!values_equal(a, b)))
    }
}

/// What executing an instruction hands back: the name it bound or assigned,
/// if any, and its value.
pub type Outcome = Result<(Option<Identifier>, Value), EvalError>;

/// The outcome of `i` in memory `m`, and the memory afterwards.
pub open spec fn exec_spec(i: Instruction, m: MemoryView) -> (Outcome, MemoryView)
    decreases i, 0nat,
{
    match i {
        Instruction::Expr(e) => {
            let (r, m1) = eval_spec(e, m);
            match r {
                Ok(v) => (Ok((None, v)), m1),
                Err(x) => (Err(x), m1),
            }
        },
        Instruction::Let { id, mutable, expr } => {
            let (r, m1) = eval_spec(expr, m);
            match r {
                Err(x) => (Err(x), m1),
                Ok(v) => match stack_declare(m1.frames, id, mutable, v) {
                    Ok(f) => (Ok((Some(id), v)), m1.with_frames(f)),
                    Err(x) => (Err(x), m1),
                },
            }
        },
        Instruction::Block(instrs) => {
            let inner = m.with_frames(m.frames.push(Map::empty()));
            let (r, m1) = exec_seq_spec(instrs@, 0, inner, Value::Unit);
            let out = m1.with_frames(m1.frames.drop_last());
            match r {
                Ok(v) => (Ok((None, v)), out),
                Err(x) => (Err(x), out),
            }
        },
        Instruction::IfElse { cond, cond_true, cond_false } => {
            let (rc, m1) = eval_spec(cond, m);
            match as_bool(rc, cond) {
                Err(x) => (Err(x), m1),
                Ok(true) => exec_spec(*cond_true, m1),
                Ok(false) => exec_spec(*cond_false, m1),
            }
        },
        Instruction::While(cond, body) => while_spec(cond, *body, m, MAX_ITERATIONS as nat),
        Instruction::WriteAt(lhs, rhs) => write_spec(lhs, rhs, m),
        Instruction::Free(e) => {
            let (r, m1) = eval_spec(e, m);
            match r {
                Err(x) => (Err(x), m1),
                Ok(v) => match mem_free(m1, v) {
                    Ok(m2) => (Ok((None, Value::Unit)), m2),
                    Err(EvalError::TypeMismatch { expression: _, expected, found }) => (
                        Err(EvalError::TypeMismatch { expression: e, expected, found }),
                        m1,
                    ),
                    Err(EvalError::CannotFreeOwnedValue(_)) => (
                        Err(EvalError::CannotFreeOwnedValue(Some(e))),
                        m1,
                    ),
                    Err(x) => (Err(x), m1),
                },
            }
        },
    }
}

/// The instructions of a block from index `k` on, in memory `m`, where
/// `last` is the value of the one before: the value of a block is that of
/// its last instruction, unit when it has none.
pub open spec fn exec_seq_spec(s: Seq<Instruction>, k: int, m: MemoryView, last: Value) -> (
    Result<Value, EvalError>,
    MemoryView,
)
    decreases s, s.len() - k,
{
    if k < 0 || k >= s.len() {
        (Ok(last), m)
    } else {
        let (r, m1) = exec_spec(s[k], m);
        match r {
            Err(x) => (Err(x), m1),
            Ok((_, v)) => exec_seq_spec(s, k + 1, m1, v),
        }
    }
}

/// A `while` loop with `fuel` iterations left.
pub open spec fn while_spec(cond: Expression, body: Instruction, m: MemoryView, fuel: nat) -> (
    Outcome,
    MemoryView,
)
    decreases body, fuel + 1,
{
    let (rc, m1) = eval_spec(cond, m);
    match as_bool(rc, cond) {
        Err(x) => (Err(x), m1),
        Ok(false) => (Ok((None, Value::Unit)), m1),
        Ok(true) => if fuel == 0 {
            (Err(EvalError::LoopLimitExceeded(cond)), m1)
        } else {
            let (rb, m2) = exec_spec(body, m1);
            match rb {
                Err(x) => (Err(x), m2),
                Ok(_) => while_spec(cond, body, m2, (fuel - 1) as nat),
            }
        },
    }
}

/// An assignment `lhs = rhs`: through a pointer when `lhs` is `*p`, to a
/// binding when it is a name.
pub open spec fn write_spec(lhs: Expression, rhs: Expression, m: MemoryView) -> (Outcome, MemoryView) {
    match lhs {
        Expression::Deref(inner) => {
            let (rp, m1) = eval_spec(*inner, m);
            match rp {
                Err(x) => (Err(x), m1),
                Ok(Value::Pointer(p)) => {
                    let (rv, m2) = eval_spec(rhs, m1);
                    match rv {
                        Err(x) => (Err(x), m2),
                        Ok(v) => match mem_write(m2, p.addr(), v) {
                            Ok(m3) => (Ok((None, v)), m3),
                            Err(EvalError::NonAllocatedCell(_)) => (
                                Err(EvalError::NonAllocatedCell(Some(lhs))),
                                m2,
                            ),
                            Err(EvalError::NotMutable(_)) => (Err(EvalError::NotMutable(Some(lhs))), m2),
                            Err(x) => (Err(x), m2),
                        },
                    }
                },
                Ok(v) => (
                    Err(EvalError::TypeMismatch { expression: *inner, expected: Type::Pointer, found: Some(type_of(v)) }),
                    m1,
                ),
            }
        },
        Expression::Identifier(id) => {
            let (rv, m1) = eval_spec(rhs, m);
            match rv {
                Err(x) => (Err(x), m1),
                Ok(v) => match stack_set(m1.frames, id, v) {
                    Ok(f) => (Ok((Some(id), v)), m1.with_frames(f)),
                    Err(EvalError::NotMutable(_)) => (Err(EvalError::NotMutable(Some(lhs))), m1),
                    Err(x) => (Err(x), m1),
                },
            }
        },
        _ => (Err(EvalError::TypeMismatch { expression: lhs, expected: Type::Pointer, found: None }), m),
    }
}

} // verus!
