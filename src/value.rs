//! Runtime values and their types.

use vstd::prelude::*;

use crate::ast::ParsedValue;
use crate::memory::same_address;
use crate::pointer::Pointer;

verus! {

/// The runtime type of a value.
#[derive(Debug, Clone, Copy, PartialEq, Eq, Structural)]
pub enum Type {
    Int,
    Bool,
    Unit,
    Pointer,
}

/// A runtime value. Values are copied on assignment; a pointer value holds
/// an address, not the storage behind it.
#[derive(Debug)]
pub enum Value {
    Integer(isize),
    Boolean(bool),
    Unit,
    Pointer(Pointer),
}

/// The runtime type of `v`.
pub open spec fn type_of(v: Value) -> Type {
    match v {
        Value::Integer(_) => Type::Int,
        Value::Boolean(_) => Type::Bool,
        Value::Unit => Type::Unit,
        Value::Pointer(_) => Type::Pointer,
    }
}

/// The value that a literal denotes.
pub open spec fn value_of_literal(pv: ParsedValue) -> Value {
    match pv {
        ParsedValue::Integer(i) => Value::Integer(i),
        ParsedValue::Boolean(b) => Value::Boolean(b),
        ParsedValue::Unit => Value::Unit,
    }
}

/// Equality of values: of the same type and the same content; pointers are
/// equal when their addresses are.
pub open spec fn values_equal(a: Value, b: Value) -> bool {
    match (a, b) {
        (Value::Integer(x), Value::Integer(y)) => x == y,
        (Value::Boolean(x), Value::Boolean(y)) => x == y,
        (Value::Unit, Value::Unit) => true,
        (Value::Pointer(p), Value::Pointer(q)) => same_address(p.addr(), q.addr()),
        _ => false,
    }
}

impl PartialEq for Value {
    fn eq(&self, other: &Value) -> (r: bool)
        ensures
            r == values_equal(*self, *other),
    {
        match (self, other) {
            (Value::Integer(x), Value::Integer(y)) => *x == *y,
            (Value::Boolean(x), Value::Boolean(y)) => *x == *y,
            (Value::Unit, Value::Unit) => true,
            (Value::Pointer(p), Value::Pointer(q)) => *p == *q,
            _ => false,
        }
    }
}

impl vstd::std_specs::cmp::PartialEqSpecImpl for Value {
    open spec fn obeys_eq_spec() -> bool {
        true
    }

    open spec fn eq_spec(&self, other: &Value) -> bool {
        values_equal(*self, *other)
    }
}

impl Clone for Value {
    fn clone(&self) -> (r: Value)
        ensures
            r == *self,
    {
        match self {
            Value::Integer(i) => Value::Integer(*i),
            Value::Boolean(b) => Value::Boolean(*b),
            Value::Unit => Value::Unit,
            Value::Pointer(p) => Value::Pointer(p.clone()),
        }
    }
}

impl From<ParsedValue> for Value {
    fn from(pv: ParsedValue) -> (r: Value) {
        match pv {
            ParsedValue::Integer(i) => Value::Integer(i),
            ParsedValue::Boolean(b) => Value::Boolean(b),
            ParsedValue::Unit => Value::Unit,
        }
    }
}

impl vstd::std_specs::convert::FromSpecImpl<ParsedValue> for Value {
    open spec fn obeys_from_spec() -> bool {
        true
    }

    open spec fn from_spec(pv: ParsedValue) -> Value {
        value_of_literal(pv)
    }
}

impl<'a> From<&'a Value> for Type {
    fn from(v: &'a Value) -> (r: Type) {
        match v {
            Value::Integer(_) => Type::Int,
            Value::Boolean(_) => Type::Bool,
            Value::Unit => Type::Unit,
            Value::Pointer(_) => Type::Pointer,
        }
    }
}

impl<'a> vstd::std_specs::convert::FromSpecImpl<&'a Value> for Type {
    open spec fn obeys_from_spec() -> bool {
        true
    }

    open spec fn from_spec(v: &'a Value) -> Type {
        type_of(*v)
    }
}

impl Value {
    /// The integer held, or the value's type when it is not an integer.
    pub fn to_int(&self) -> (r: Result<isize, Type>)
        ensures
            match *self {
                Value::Integer(i) => r == Ok::<isize, Type>(i),
                _ => r == Err::<isize, Type>(type_of(*self)),
            },
    {
        match self {
            Value::Integer(i) => Ok(*i),
            _ => Err(Type::from(self)),
        }
    }

    /// The boolean held, or the value's type when it is not a boolean.
    pub fn to_bool(&self) -> (r: Result<bool, Type>)
        ensures
            match *self {
                Value::Boolean(b) => r == Ok::<bool, Type>(b),
                _ => r == Err::<bool, Type>(type_of(*self)),
            },
    {
        match self {
            Value::Boolean(b) => Ok(*b),
            _ => Err(Type::from(self)),
        }
    }
}

} // verus!
