//! The evaluator: expressions, instructions, and the entry point that runs
//! one parsed line against the memory of a session.

use vstd::prelude::*;

use crate::ast::{Binop, Expression, Instruction};
use crate::error::{Error, EvalError, ParseError};
use crate::identifier::Identifier;
use crate::memory::{Address, Memory};
use crate::namespace::NameSpace;
use crate::pointer::{Pointer, group_pointer};
use crate::semantics::{
    MAX_ITERATIONS,
    address_spec,
    as_bool,
    as_int,
    eval_spec,
    exec_seq_spec,
    exec_spec,
    while_spec,
    write_spec,
};
use crate::value::{Type, Value};

verus! {

broadcast use group_pointer;

impl Expression {
    /// Evaluates this expression, which must give an integer.
    fn eval_and_cast_to_int(&self, mem: &mut Memory) -> (r: Result<isize, EvalError>)
        ensures
            r == as_int(eval_spec(*self, old(mem)@).0, *self),
            final(mem)@ == eval_spec(*self, old(mem)@).1,
            final(mem)@.frames == old(mem)@.frames,
        decreases self, 1nat,
    {
        let v = match self.eval(mem) {
            Ok(v) => v,
            Err(x) => return Err(x),
        };
        match v {
            Value::Integer(i) => Ok(i),
            _ => Err(
                EvalError::TypeMismatch {
                    expression: self.clone(),
                    expected: Type::Int,
                    found: Some(Type::from(&v)),
                },
            ),
        }
    }

    /// Evaluates this expression, which must give a boolean.
    fn eval_and_cast_to_bool(&self, mem: &mut Memory) -> (r: Result<bool, EvalError>)
        ensures
            r == as_bool(eval_spec(*self, old(mem)@).0, *self),
            final(mem)@ == eval_spec(*self, old(mem)@).1,
            final(mem)@.frames == old(mem)@.frames,
        decreases self, 1nat,
    {
        let v = match self.eval(mem) {
            Ok(v) => v,
            Err(x) => return Err(x),
        };
        match v {
            Value::Boolean(b) => Ok(b),
            _ => Err(
                EvalError::TypeMismatch {
                    expression: self.clone(),
                    expected: Type::Bool,
                    found: Some(Type::from(&v)),
                },
            ),
        }
    }

    /// Evaluates this expression. Only the heap can change: `new` allocates.
    pub fn eval(&self, mem: &mut Memory) -> (r: Result<Value, EvalError>)
        ensures
            (r, final(mem)@) == eval_spec(*self, old(mem)@),
            final(mem)@.frames == old(mem)@.frames,
        decreases self, 0nat,
    {
        match self {
            Expression::Const(v) => Ok(Value::from(*v)),
            Expression::Identifier(id) => mem.find(id),
            Expression::BinOp(lhs, op, rhs) => {
                if *op == Binop::Eq || *op == Binop::Neq {
                    let v1 = match lhs.eval(mem) {
                        Ok(v) => v,
                        Err(x) => return Err(x),
                    };
                    let v2 = match rhs.eval(mem) {
                        Ok(v) => v,
                        Err(x) => return Err(x),
                    };
                    if Type::from(&v1) != Type::from(&v2) {
                        return Err(
                            EvalError::TypeMismatch {
                                expression: (**rhs).clone(),
                                expected: Type::from(&v1),
                                found: Some(Type::from(&v2)),
                            },
                        );
                    }
                    if *op == Binop::Eq {
                        Ok(Value::Boolean(v1 == v2))
                    } else {
                        Ok(Value::Boolean(!(v1 == v2)))
                    }
                } else if *op == Binop::And || *op == Binop::Or {
                    let b1 = match lhs.eval_and_cast_to_bool(mem) {
                        Ok(b) => b,
                        Err(x) => return Err(x),
                    };
                    let b2 = match rhs.eval_and_cast_to_bool(mem) {
                        Ok(b) => b,
                        Err(x) => return Err(x),
                    };
                    if *op == Binop::And {
                        Ok(Value::Boolean(b1 && b2))
                    } else {
                        Ok(Value::Boolean(b1 || b2))
                    }
                } else {
                    let v1 = match lhs.eval_and_cast_to_int(mem) {
                        Ok(i) => i,
                        Err(x) => return Err(x),
                    };
                    let v2 = match rhs.eval_and_cast_to_int(mem) {
                        Ok(i) => i,
                        Err(x) => return Err(x),
                    };
                    match op {
                        Binop::Add => Ok(Value::Integer(v1.wrapping_add(v2))),
                        Binop::Sub => Ok(Value::Integer(v1.wrapping_sub(v2))),
                        Binop::Mul => Ok(Value::Integer(v1.wrapping_mul(v2))),
                        Binop::Div => {
                            if v2 == 0 {
                                return Err(EvalError::DivisionByZero((**rhs).clone()));
                            }
                            match v1.checked_div(v2) {
                                Some(q) => Ok(Value::Integer(q)),
                                None => Ok(Value::Integer(v1)),
                            }
                        },
                        Binop::Mod => {
                            if v2 == 0 {
                                return Err(EvalError::DivisionByZero((**rhs).clone()));
                            }
                            match v1.checked_rem(v2) {
                                Some(q) => Ok(Value::Integer(q)),
                                None => Ok(Value::Integer(0)),
                            }
                        },
                        Binop::Leq => Ok(Value::Boolean(v1 <= v2)),
                        Binop::Geq => Ok(Value::Boolean(v1 >= v2)),
                        Binop::Lt => Ok(Value::Boolean(v1 < v2)),
                        _ => Ok(Value::Boolean(v1 > v2)),
                    }
                }
            },
            Expression::Conditional { cond, cond_true, cond_false } => {
                let res = match cond.eval_and_cast_to_bool(mem) {
                    Ok(b) => b,
                    Err(x) => return Err(x),
                };
                if res {
                    cond_true.eval(mem)
                } else {
                    cond_false.eval(mem)
                }
            },
            Expression::NewPtr => Ok(Value::Pointer(Pointer::new(mem.malloc()))),
            Expression::Deref(id) => {
                let val = match id.eval(mem) {
                    Ok(v) => v,
                    Err(x) => return Err(x),
                };
                match &val {
                    Value::Pointer(addr) => match mem.value_at(addr.get_address()) {
                        Ok(v) => Ok(v),
                        Err(EvalError::NonInitializedValue(_)) => Err(
                            EvalError::NonInitializedValue(Some((**id).clone())),
                        ),
                        Err(EvalError::NonAllocatedCell(_)) => Err(
                            EvalError::NonAllocatedCell(Some((**id).clone())),
                        ),
                        Err(x) => Err(x),
                    },
                    _ => Err(
                        EvalError::TypeMismatch {
                            expression: self.clone(),
                            expected: Type::Pointer,
                            found: Some(Type::from(&val)),
                        },
                    ),
                }
            },
            Expression::AmpersAnd(p) => match p.eval_to_address(mem) {
                Ok(a) => Ok(Value::Pointer(Pointer::new(a))),
                Err(x) => Err(x),
            },
        }
    }

    /// The address that `&` takes of this expression: only a name has one.
    fn eval_to_address(&self, mem: &mut Memory) -> (r: Result<Address, EvalError>)
        ensures
            (r, final(mem)@) == address_spec(*self, old(mem)@),
            final(mem)@ == old(mem)@,
    {
        match self {
            Expression::Identifier(i) => mem.get_address(i),
            _ => Err(
                EvalError::TypeMismatch { expression: self.clone(), expected: Type::Pointer, found: None },
            ),
        }
    }
}

impl Instruction {
    /// Executes this instruction. It hands back the name that it bound or
    /// assigned, if any, and its value. Every scope that it enters is left
    /// again, also when it fails.
    pub fn exec(&self, mem: &mut Memory) -> (r: Result<(Option<Identifier>, Value), EvalError>)
        requires
            old(mem)@.frames.len() > 0,
        ensures
            (r, final(mem)@) == exec_spec(*self, old(mem)@),
            final(mem)@.frames.len() == old(mem)@.frames.len(),
        decreases self,
    {
        match self {
            Instruction::Let { id, mutable, expr } => {
                let v_temp = match expr.eval(mem) {
                    Ok(v) => v,
                    Err(x) => return Err(x),
                };
                match mem.declare(id, *mutable, v_temp.clone()) {
                    Ok(()) => Ok((Some(id.clone()), v_temp)),
                    Err(x) => Err(x),
                }
            },
            Instruction::Expr(expr) => match expr.eval(mem) {
                Ok(v) => Ok((None, v)),
                Err(x) => Err(x),
            },
            Instruction::Block(instrs) => {
                mem.push(NameSpace::new());
                let ghost inner = mem@;
                let mut return_value = Value::Unit;
                let mut k: usize = 0;
                while k < instrs.len()
                    invariant
                        *self == Instruction::Block(*instrs),
                        k <= instrs@.len(),
                        mem@.frames.len() == old(mem)@.frames.len() + 1,
                        inner == old(mem)@.with_frames(old(mem)@.frames.push(Map::empty())),
                        exec_seq_spec(instrs@, 0, inner, Value::Unit) == exec_seq_spec(
                            instrs@,
                            k as int,
                            mem@,
                            return_value,
                        ),
                    decreases instrs@.len() - k,
                {
                    proof {
                        vstd::seq::axiom_seq_index_decreases(instrs@, k as int);
                        assert(decreases_to!(*self => self->Block_0));
                        assert(decreases_to!(self->Block_0 => self->Block_0@));
                        assert(decreases_to!(*self => instrs@[k as int]));
                    }
                    let ghost before = mem@;
                    match instrs[k].exec(mem) {
                        Ok((_, v)) => {
                            return_value = v;
                        },
                        Err(x) => {
                            proof {
                                assert(exec_seq_spec(instrs@, k as int, before, return_value) == (
                                    Err::<Value, EvalError>(x),
                                    mem@,
                                ));
                            }
                            mem.pop();
                            return Err(x);
                        },
                    }
                    k = k + 1;
                }
                mem.pop();
                Ok((None, return_value))
            },
            Instruction::IfElse { cond, cond_true, cond_false } => {
                let res = match cond.eval_and_cast_to_bool(mem) {
                    Ok(b) => b,
                    Err(x) => return Err(x),
                };
                if res {
                    cond_true.exec(mem)
                } else {
                    cond_false.exec(mem)
                }
            },
            Instruction::While(cond, inst) => {
                let mut count: u64 = 0;
                loop
                    invariant
                        mem@.frames.len() == old(mem)@.frames.len(),
                        mem@.frames.len() > 0,
                        *self == Instruction::While(*cond, *inst),
                        exec_spec(*self, old(mem)@) == while_spec(
                            *cond,
                            **inst,
                            mem@,
                            (MAX_ITERATIONS - count) as nat,
                        ),
                    decreases MAX_ITERATIONS - count,
                {
                    let res = match cond.eval_and_cast_to_bool(mem) {
                        Ok(b) => b,
                        Err(x) => return Err(x),
                    };
                    if !res {
                        return Ok((None, Value::Unit));
                    }
                    if count == MAX_ITERATIONS {
                        return Err(EvalError::LoopLimitExceeded(cond.clone()));
                    }
                    match inst.exec(mem) {
                        Ok(_) => {},
                        Err(x) => return Err(x),
                    }
                    count = count + 1;
                }
            },
            Instruction::WriteAt(e1, e2) => Self::exec_write(e1, e2, mem),
            Instruction::Free(e) => {
                let id_val = match e.eval(mem) {
                    Ok(v) => v,
                    Err(x) => return Err(x),
                };
                match mem.free(&id_val) {
                    Ok(_) => Ok((None, Value::Unit)),
                    Err(EvalError::TypeMismatch { expression: _, expected, found }) => Err(
                        EvalError::TypeMismatch { expression: e.clone(), expected, found },
                    ),
                    Err(EvalError::CannotFreeOwnedValue(_)) => Err(
                        EvalError::CannotFreeOwnedValue(Some(e.clone())),
                    ),
                    Err(x) => Err(x),
                }
            },
        }
    }

    /// Executes `e1 = e2`: a write through a pointer when `e1` is `*p`, an
    /// assignment to a binding when it is a name.
    fn exec_write(e1: &Expression, e2: &Expression, mem: &mut Memory) -> (r: Result<
        (Option<Identifier>, Value),
        EvalError,
    >)
        ensures
            (r, final(mem)@) == write_spec(*e1, *e2, old(mem)@),
            final(mem)@.frames.len() == old(mem)@.frames.len(),
    {
        match e1 {
            Expression::Deref(id) => {
                let val = match id.eval(mem) {
                    Ok(v) => v,
                    Err(x) => return Err(x),
                };
                match &val {
                    Value::Pointer(addr) => {
                        let r_val = match e2.eval(mem) {
                            Ok(v) => v,
                            Err(x) => return Err(x),
                        };
                        match mem.write_at(addr.get_address(), r_val.clone()) {
                            Ok(_) => Ok((None, r_val)),
                            Err(EvalError::NonAllocatedCell(_)) => Err(
                                EvalError::NonAllocatedCell(Some(e1.clone())),
                            ),
                            Err(EvalError::NotMutable(_)) => Err(EvalError::NotMutable(Some(e1.clone()))),
                            Err(x) => Err(x),
                        }
                    },
                    _ => Err(
                        EvalError::TypeMismatch {
                            expression: (**id).clone(),
                            expected: Type::Pointer,
                            found: Some(Type::from(&val)),
                        },
                    ),
                }
            },
            Expression::Identifier(id) => {
                let val = match e2.eval(mem) {
                    Ok(v) => v,
                    Err(x) => return Err(x),
                };
                match mem.write_var(id, &val) {
                    Ok(_) => Ok((Some(id.clone()), val)),
                    Err(EvalError::NotMutable(_)) => Err(EvalError::NotMutable(Some(e1.clone()))),
                    Err(x) => Err(x),
                }
            },
            _ => Err(EvalError::TypeMismatch { expression: e1.clone(), expected: Type::Pointer, found: None }),
        }
    }
}

/// Runs what the parser made of one line against the memory of the session:
/// a parse failure is handed back as it is, an instruction is executed.
pub fn exec_parsed(parsed: Result<Instruction, ParseError>, nss: &mut Memory) -> (r: Result<
    (Option<Identifier>, Value),
    Error,
>)
    requires
        old(nss)@.frames.len() > 0,
    ensures
        match parsed {
            Err(e) => r == Err::<(Option<Identifier>, Value), Error>(Error::ParseError(e))
                && final(nss)@ == old(nss)@,
            Ok(i) => final(nss)@ == exec_spec(i, old(nss)@).1 && match exec_spec(i, old(nss)@).0 {
                Ok(o) => r == Ok::<(Option<Identifier>, Value), Error>(o),
                Err(e) => r == Err::<(Option<Identifier>, Value), Error>(Error::EvalError(e)),
            },
        },
        final(nss)@.frames.len() == old(nss)@.frames.len(),
{
    match parsed {
        Ok(instr) => match instr.exec(nss) {
            Ok(o) => Ok(o),
            Err(err) => Err(Error::EvalError(err)),
        },
        Err(e) => Err(Error::ParseError(e)),
    }
}

} // verus!
