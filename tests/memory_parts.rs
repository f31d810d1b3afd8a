use murust::ast::{Expression, ParsedValue};
use murust::error::{Error, EvalError};
use murust::heap::Heap;
use murust::identifier::Identifier;
use murust::memory::{Address, Memory};
use murust::memorycell::MemoryCell;
use murust::namespace::NameSpace;
use murust::namespacestack::NameSpaceStack;
use murust::pointer::Pointer;
use murust::value::{Type, Value};

fn slot(a: Address) -> usize {
    match a {
        Address::HeapAddress(n) => n,
        other => panic!("expected a heap address, got {:?}", other),
    }
}

#[test]
fn heap_allocation_is_first_fit() {
    let mut h = Heap::new();
    assert_eq!(slot(h.malloc()), 0);
    assert_eq!(slot(h.malloc()), 1);
    assert_eq!(slot(h.malloc()), 2);
    h.free(1);
    assert_eq!(slot(h.malloc()), 1);
    assert_eq!(slot(h.malloc()), 3);
    h.free(0);
    h.free(2);
    assert_eq!(slot(h.malloc()), 0);
    assert_eq!(slot(h.malloc()), 2);
    assert_eq!(slot(h.malloc()), 4);
}

#[test]
fn heap_read_and_write() {
    let mut h = Heap::new();
    let a = slot(h.malloc());
    assert!(matches!(h.get(a), Err(EvalError::NonInitializedValue(None))));
    assert!(h.set(a, Value::Integer(8)).is_ok());
    assert!(matches!(h.get(a), Ok(Value::Integer(8))));
    h.free(a);
    assert!(matches!(h.get(a), Err(EvalError::NonAllocatedCell(None))));
    assert!(matches!(h.set(a, Value::Unit), Err(EvalError::NonAllocatedCell(None))));
    assert!(matches!(h.get(17), Err(EvalError::NonAllocatedCell(None))));
    assert!(matches!(h.set(17, Value::Unit), Err(EvalError::NonAllocatedCell(None))));
    h.free(17);
    assert_eq!(slot(h.malloc()), 0);
}

#[test]
fn memory_cell_operations() {
    let mut c = MemoryCell::new_uninitialized();
    assert!(c.is_allocated());
    assert!(c.is_mutable());
    assert!(matches!(c.get_value(), Err(EvalError::NonInitializedValue(None))));
    assert!(c.set_value(Value::Boolean(true)).is_ok());
    assert!(matches!(c.get_value(), Ok(Value::Boolean(true))));

    let mut k = MemoryCell::new_initialized(false, Value::Integer(3));
    assert!(!k.is_mutable());
    assert!(matches!(k.set_value(Value::Integer(4)), Err(EvalError::NotMutable(None))));
    assert!(matches!(k.get_value(), Ok(Value::Integer(3))));

    let mut n = MemoryCell::NotAllocated;
    assert!(!n.is_allocated());
    assert!(!n.is_mutable());
    assert!(matches!(n.get_value(), Err(EvalError::NonAllocatedCell(None))));
    assert!(matches!(n.set_value(Value::Unit), Err(EvalError::NonAllocatedCell(None))));
}

#[test]
fn namespace_operations() {
    let mut ns = NameSpace::new();
    let x = Identifier::from("x");
    let y = Identifier::from("y");
    assert!(!ns.contains(&x));
    assert!(ns.declare(&x, false, Value::Integer(42)).is_ok());
    assert!(ns.contains(&x));
    match ns.declare(&x, false, Value::Integer(42)) {
        Err(EvalError::AlreadyDefined(id)) => assert!(id == x),
        other => panic!("unexpected {:?}", other),
    }
    assert!(matches!(ns.find(&x), Ok(Value::Integer(42))));
    match ns.find(&y) {
        Err(EvalError::Undefined(id)) => assert!(id == y),
        other => panic!("unexpected {:?}", other),
    }
    assert!(matches!(ns.set(&x, Value::Integer(1)), Err(EvalError::NotMutable(Some(Expression::Identifier(_))))));
    assert!(matches!(ns.set(&y, Value::Integer(1)), Err(EvalError::Undefined(_))));
    assert!(ns.declare(&y, true, Value::Integer(0)).is_ok());
    assert!(ns.set(&y, Value::Integer(5)).is_ok());
    assert!(matches!(ns.find(&y), Ok(Value::Integer(5))));
    assert!(matches!(ns.find(&x), Ok(Value::Integer(42))));
}

#[test]
fn namespace_stack_searches_innermost_first() {
    let mut st = NameSpaceStack::new();
    assert_eq!(st.len(), 0);
    st.push(NameSpace::new());
    assert_eq!(st.len(), 1);
    let x = Identifier::from("x");
    let y = Identifier::from("y");
    let z = Identifier::from("z");
    assert!(st.declare(&x, false, Value::Integer(0)).is_ok());
    assert!(st.declare(&y, true, Value::Integer(0)).is_ok());
    st.push(NameSpace::new());
    assert!(st.declare(&x, false, Value::Integer(1)).is_ok());
    assert!(matches!(st.find(&x), Ok(Value::Integer(1))));
    assert!(matches!(st.find(&y), Ok(Value::Integer(0))));
    match st.find(&z) {
        Err(EvalError::Undefined(id)) => assert!(id == z),
        other => panic!("unexpected {:?}", other),
    }
    match st.get_address(&x) {
        Ok(Address::StackAddress(1, id)) => assert!(id == x),
        other => panic!("unexpected {:?}", other),
    }
    match st.get_address(&y) {
        Ok(Address::StackAddress(0, id)) => assert!(id == y),
        other => panic!("unexpected {:?}", other),
    }
    assert!(matches!(st.get_address(&z), Err(EvalError::Undefined(_))));
    // the innermost `x` is immutable: the search stops there
    assert!(matches!(st.set(&x, Value::Integer(2)), Err(EvalError::NotMutable(_))));
    assert!(st.set(&y, Value::Integer(3)).is_ok());
    assert!(matches!(st.read_at(0, &y), Ok(Value::Integer(3))));
    assert!(matches!(st.read_at(0, &x), Ok(Value::Integer(0))));
    assert!(matches!(st.read_at(5, &x), Err(EvalError::NonAllocatedCell(None))));
    assert!(st.pop().is_some());
    assert!(matches!(st.find(&x), Ok(Value::Integer(0))));
    assert!(st.pop().is_some());
    assert!(st.pop().is_none());
}

#[test]
fn memory_dispatches_by_address() {
    let mut m = Memory::new();
    assert_eq!(m.scope_count(), 0);
    m.push(NameSpace::new());
    assert_eq!(m.scope_count(), 1);
    let x = Identifier::from("x");
    assert!(m.declare(&x, true, Value::Integer(1)).is_ok());
    let a = m.get_address(&x).unwrap();
    assert!(matches!(m.value_at(&a), Ok(Value::Integer(1))));
    assert!(m.write_var(&x, &Value::Integer(2)).is_ok());
    assert!(matches!(m.value_at(&a), Ok(Value::Integer(2))));
    assert!(m.write_at(&a, Value::Integer(3)).is_ok());
    assert!(matches!(m.find(&x), Ok(Value::Integer(3))));

    let h = m.malloc();
    assert!(matches!(m.value_at(&h), Err(EvalError::NonInitializedValue(None))));
    assert!(m.write_at(&h, Value::Boolean(false)).is_ok());
    assert!(matches!(m.value_at(&h), Ok(Value::Boolean(false))));
    assert!(matches!(m.free(&Value::Pointer(Pointer::new(h.clone()))), Ok(Value::Unit)));
    assert!(matches!(m.value_at(&h), Err(EvalError::NonAllocatedCell(None))));
    assert!(matches!(m.free(&Value::Pointer(Pointer::new(a.clone()))), Err(EvalError::CannotFreeOwnedValue(None))));
    match m.free(&Value::Boolean(true)) {
        Err(EvalError::TypeMismatch { expression: Expression::Const(ParsedValue::Boolean(true)), expected: Type::Pointer, found: Some(Type::Bool) }) => {}
        other => panic!("unexpected {:?}", other),
    }
    assert!(m.pop().is_some());
    assert!(matches!(m.value_at(&a), Err(EvalError::NonAllocatedCell(None))));
    assert!(m.pop().is_none());
}

#[test]
fn values_and_types() {
    assert!(matches!(Value::Integer(3).to_int(), Ok(3)));
    assert!(matches!(Value::Boolean(true).to_int(), Err(Type::Bool)));
    assert!(matches!(Value::Boolean(false).to_bool(), Ok(false)));
    assert!(matches!(Value::Unit.to_bool(), Err(Type::Unit)));
    let p = Value::Pointer(Pointer::new(Address::HeapAddress(0)));
    assert_eq!(Type::from(&p), Type::Pointer);
    assert_eq!(Type::from(&Value::Integer(1)), Type::Int);
    assert!(matches!(Value::from(ParsedValue::Integer(-5)), Value::Integer(-5)));
    assert!(matches!(Value::from(ParsedValue::Unit), Value::Unit));
    assert!(Value::Integer(2) == Value::Integer(2));
    assert!(!(Value::Integer(2) == Value::Boolean(true)));
    assert!(p == Value::Pointer(Pointer::new(Address::HeapAddress(0))));
    assert!(!(p == Value::Pointer(Pointer::new(Address::HeapAddress(1)))));
    let s = Pointer::new(Address::StackAddress(0, Identifier::from("a")));
    assert!(s == Pointer::new(Address::StackAddress(0, Identifier::from("a"))));
    assert!(!(s == Pointer::new(Address::StackAddress(0, Identifier::from("b")))));
    assert!(matches!(s.get_address(), Address::StackAddress(0, _)));
}

#[test]
fn identifiers_compare_by_name() {
    let a = Identifier::from("abc");
    assert!(a == Identifier::from("abc"));
    assert!(!(a == Identifier::from("abd")));
    assert_eq!(a.clone().as_str(), "abc");
}

#[test]
fn with_expression_info_names_only_bare_errors() {
    let e = Expression::Const(ParsedValue::Integer(1));
    assert!(matches!(EvalError::NotMutable(None).with_expression_info(e.clone()), EvalError::NotMutable(Some(Expression::Const(ParsedValue::Integer(1))))));
    assert!(matches!(EvalError::NonAllocatedCell(None).with_expression_info(e.clone()), EvalError::NonAllocatedCell(Some(_))));
    assert!(matches!(EvalError::NonInitializedValue(None).with_expression_info(e.clone()), EvalError::NonInitializedValue(Some(_))));
    assert!(matches!(EvalError::UseAfterFree(None).with_expression_info(e.clone()), EvalError::UseAfterFree(Some(_))));
    let named = EvalError::NotMutable(Some(Expression::NewPtr));
    assert!(matches!(named.with_expression_info(e.clone()), EvalError::NotMutable(Some(Expression::NewPtr))));
    assert!(matches!(EvalError::MovedValue(None).with_expression_info(e.clone()), EvalError::MovedValue(None)));
    assert!(matches!(Error::from(EvalError::MovedValue(None)), Error::EvalError(_)));
}
