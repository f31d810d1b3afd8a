use murust::ast::{Binop, Expression, Instruction, ParsedValue};
use murust::error::{Error, EvalError, ParseError};
use murust::eval::exec_parsed;
use murust::identifier::Identifier;
use murust::memory::Memory;
use murust::namespace::NameSpace;
use murust::value::{Type, Value};

fn session() -> Memory {
    let mut mem = Memory::new();
    mem.push(NameSpace::new());
    mem
}

fn id(name: &str) -> Identifier {
    Identifier::from(name)
}

fn num(i: isize) -> Expression {
    Expression::Const(ParsedValue::Integer(i))
}

fn boolean(b: bool) -> Expression {
    Expression::Const(ParsedValue::Boolean(b))
}

fn var(name: &str) -> Expression {
    Expression::Identifier(id(name))
}

fn bin(l: Expression, op: Binop, r: Expression) -> Expression {
    Expression::BinOp(Box::new(l), op, Box::new(r))
}

fn deref(e: Expression) -> Expression {
    Expression::Deref(Box::new(e))
}

fn amp(e: Expression) -> Expression {
    Expression::AmpersAnd(Box::new(e))
}

fn let_(name: &str, mutable: bool, e: Expression) -> Instruction {
    Instruction::Let { id: id(name), mutable, expr: e }
}

fn assign(l: Expression, r: Expression) -> Instruction {
    Instruction::WriteAt(l, r)
}

fn run(mem: &mut Memory, i: Instruction) -> Result<(Option<Identifier>, Value), EvalError> {
    i.exec(mem)
}

fn value_of(mem: &mut Memory, e: Expression) -> Result<Value, EvalError> {
    e.eval(mem)
}

fn eval_int(mem: &mut Memory, e: Expression) -> isize {
    match e.eval(mem) {
        Ok(Value::Integer(i)) => i,
        other => panic!("expected an integer, got {:?}", other),
    }
}

fn eval_fresh(e: Expression) -> Result<Value, EvalError> {
    let mut mem = session();
    e.eval(&mut mem)
}

#[test]
fn immutable_assignment_fails_with_not_mutable() {
    let mut mem = session();
    run(&mut mem, let_("x", false, num(1))).unwrap();
    match run(&mut mem, assign(var("x"), num(2))) {
        Err(EvalError::NotMutable(Some(Expression::Identifier(x)))) => assert!(x == id("x")),
        other => panic!("unexpected {:?}", other),
    }
    assert_eq!(eval_int(&mut mem, var("x")), 1);
}

#[test]
fn mutable_assignment_is_observed() {
    let mut mem = session();
    run(&mut mem, let_("x", true, num(1))).unwrap();
    match run(&mut mem, assign(var("x"), num(2))) {
        Ok((Some(x), Value::Integer(2))) => assert!(x == id("x")),
        other => panic!("unexpected {:?}", other),
    }
    assert_eq!(eval_int(&mut mem, var("x")), 2);
}

#[test]
fn deref_of_address_sees_current_value() {
    let mut mem = session();
    run(&mut mem, let_("x", true, num(1))).unwrap();
    assert_eq!(eval_int(&mut mem, deref(amp(var("x")))), 1);
    run(&mut mem, let_("p", false, amp(var("x")))).unwrap();
    run(&mut mem, assign(var("x"), num(5))).unwrap();
    assert_eq!(eval_int(&mut mem, deref(var("p"))), 5);
}

#[test]
fn pointer_keeps_its_binding_under_shadowing() {
    let mut mem = session();
    run(&mut mem, let_("x", false, num(1))).unwrap();
    run(&mut mem, let_("p", false, amp(var("x")))).unwrap();
    let block = Instruction::Block(vec![
        let_("x", false, num(2)),
        Instruction::Expr(bin(deref(var("p")), Binop::Add, var("x"))),
    ]);
    match run(&mut mem, block) {
        Ok((None, Value::Integer(3))) => {}
        other => panic!("unexpected {:?}", other),
    }
}

#[test]
fn write_through_pointer_to_stack_binding() {
    let mut mem = session();
    run(&mut mem, let_("x", true, num(1))).unwrap();
    run(&mut mem, let_("p", false, amp(var("x")))).unwrap();
    match run(&mut mem, assign(deref(var("p")), num(7))) {
        Ok((None, Value::Integer(7))) => {}
        other => panic!("unexpected {:?}", other),
    }
    assert_eq!(eval_int(&mut mem, var("x")), 7);
}

#[test]
fn write_through_pointer_to_immutable_binding_fails() {
    let mut mem = session();
    run(&mut mem, let_("x", false, num(1))).unwrap();
    run(&mut mem, let_("p", false, amp(var("x")))).unwrap();
    match run(&mut mem, assign(deref(var("p")), num(7))) {
        Err(EvalError::NotMutable(Some(Expression::Deref(_)))) => {}
        other => panic!("unexpected {:?}", other),
    }
    assert_eq!(eval_int(&mut mem, var("x")), 1);
}

#[test]
fn free_of_stack_address_fails() {
    let mut mem = session();
    run(&mut mem, let_("x", false, num(1))).unwrap();
    match run(&mut mem, Instruction::Free(amp(var("x")))) {
        Err(EvalError::CannotFreeOwnedValue(Some(Expression::AmpersAnd(_)))) => {}
        other => panic!("unexpected {:?}", other),
    }
}

#[test]
fn deref_after_free_fails() {
    let mut mem = session();
    run(&mut mem, let_("p", false, Expression::NewPtr)).unwrap();
    run(&mut mem, assign(deref(var("p")), num(4))).unwrap();
    assert_eq!(eval_int(&mut mem, deref(var("p"))), 4);
    match run(&mut mem, Instruction::Free(var("p"))) {
        Ok((None, Value::Unit)) => {}
        other => panic!("unexpected {:?}", other),
    }
    match value_of(&mut mem, deref(var("p"))) {
        Err(EvalError::NonAllocatedCell(Some(Expression::Identifier(p)))) => assert!(p == id("p")),
        other => panic!("unexpected {:?}", other),
    }
    match run(&mut mem, assign(deref(var("p")), num(1))) {
        Err(EvalError::NonAllocatedCell(Some(Expression::Deref(_)))) => {}
        other => panic!("unexpected {:?}", other),
    }
}

#[test]
fn free_of_non_pointer_is_type_mismatch() {
    let mut mem = session();
    match run(&mut mem, Instruction::Free(num(3))) {
        Err(EvalError::TypeMismatch { expression: Expression::Const(ParsedValue::Integer(3)), expected: Type::Pointer, found: Some(Type::Int) }) => {}
        other => panic!("unexpected {:?}", other),
    }
}

#[test]
fn deref_of_uninitialized_cell_fails() {
    let mut mem = session();
    run(&mut mem, let_("p", false, Expression::NewPtr)).unwrap();
    match value_of(&mut mem, deref(var("p"))) {
        Err(EvalError::NonInitializedValue(Some(Expression::Identifier(_)))) => {}
        other => panic!("unexpected {:?}", other),
    }
}

#[test]
fn deref_of_non_pointer_is_type_mismatch() {
    match eval_fresh(deref(num(1))) {
        Err(EvalError::TypeMismatch { expression: Expression::Deref(_), expected: Type::Pointer, found: Some(Type::Int) }) => {}
        other => panic!("unexpected {:?}", other),
    }
}

#[test]
fn address_of_compound_expression_is_type_mismatch() {
    match eval_fresh(amp(bin(num(1), Binop::Add, num(2)))) {
        Err(EvalError::TypeMismatch { expression: Expression::BinOp(..), expected: Type::Pointer, found: None }) => {}
        other => panic!("unexpected {:?}", other),
    }
}

#[test]
fn address_of_new_is_type_mismatch() {
    let mut mem = session();
    match value_of(&mut mem, amp(Expression::NewPtr)) {
        Err(EvalError::TypeMismatch { expression: Expression::NewPtr, expected: Type::Pointer, found: None }) => {}
        other => panic!("unexpected {:?}", other),
    }
    // no heap cell was taken: the next allocation gets the first slot
    match mem.malloc() {
        murust::memory::Address::HeapAddress(0) => {}
        other => panic!("unexpected {:?}", other),
    }
}

#[test]
fn division_by_zero_fails() {
    match eval_fresh(bin(num(1), Binop::Div, num(0))) {
        Err(EvalError::DivisionByZero(Expression::Const(ParsedValue::Integer(0)))) => {}
        other => panic!("unexpected {:?}", other),
    }
}

#[test]
fn modulo_by_zero_fails_like_division() {
    match eval_fresh(bin(num(1), Binop::Mod, num(0))) {
        Err(EvalError::DivisionByZero(Expression::Const(ParsedValue::Integer(0)))) => {}
        other => panic!("unexpected {:?}", other),
    }
}

#[test]
fn arithmetic_results() {
    let mut mem = session();
    assert_eq!(eval_int(&mut mem, bin(num(7), Binop::Add, num(5))), 12);
    assert_eq!(eval_int(&mut mem, bin(num(7), Binop::Sub, num(10))), -3);
    assert_eq!(eval_int(&mut mem, bin(num(6), Binop::Mul, num(-7))), -42);
    assert_eq!(eval_int(&mut mem, bin(num(7), Binop::Div, num(2))), 3);
    assert_eq!(eval_int(&mut mem, bin(num(-7), Binop::Div, num(2))), -3);
    assert_eq!(eval_int(&mut mem, bin(num(7), Binop::Mod, num(3))), 1);
    assert_eq!(eval_int(&mut mem, bin(num(-7), Binop::Mod, num(2))), -1);
}

#[test]
fn arithmetic_wraps_on_overflow() {
    let mut mem = session();
    assert_eq!(eval_int(&mut mem, bin(num(isize::MAX), Binop::Add, num(1))), isize::MIN);
    assert_eq!(eval_int(&mut mem, bin(num(isize::MIN), Binop::Sub, num(1))), isize::MAX);
    assert_eq!(eval_int(&mut mem, bin(num(isize::MAX), Binop::Mul, num(2))), -2);
    assert_eq!(eval_int(&mut mem, bin(num(isize::MIN), Binop::Div, num(-1))), isize::MIN);
    assert_eq!(eval_int(&mut mem, bin(num(isize::MIN), Binop::Mod, num(-1))), 0);
}

#[test]
fn comparisons_and_logic() {
    let cases = vec![
        (bin(num(1), Binop::Leq, num(1)), true),
        (bin(num(2), Binop::Geq, num(3)), false),
        (bin(num(1), Binop::Lt, num(2)), true),
        (bin(num(1), Binop::Gt, num(2)), false),
        (bin(num(4), Binop::Eq, num(4)), true),
        (bin(boolean(true), Binop::Neq, boolean(false)), true),
        (bin(boolean(true), Binop::And, boolean(false)), false),
        (bin(boolean(false), Binop::Or, boolean(true)), true),
        (bin(Expression::Const(ParsedValue::Unit), Binop::Eq, Expression::Const(ParsedValue::Unit)), true),
    ];
    for (e, expected) in cases {
        match eval_fresh(e) {
            Ok(Value::Boolean(b)) => assert_eq!(b, expected),
            other => panic!("unexpected {:?}", other),
        }
    }
}

#[test]
fn pointer_equality_compares_addresses() {
    let mut mem = session();
    run(&mut mem, let_("x", false, num(1))).unwrap();
    run(&mut mem, let_("y", false, num(1))).unwrap();
    match value_of(&mut mem, bin(amp(var("x")), Binop::Eq, amp(var("x")))) {
        Ok(Value::Boolean(true)) => {}
        other => panic!("unexpected {:?}", other),
    }
    match value_of(&mut mem, bin(amp(var("x")), Binop::Eq, amp(var("y")))) {
        Ok(Value::Boolean(false)) => {}
        other => panic!("unexpected {:?}", other),
    }
}

#[test]
fn equality_of_different_types_is_type_mismatch() {
    match eval_fresh(bin(num(1), Binop::Eq, boolean(true))) {
        Err(EvalError::TypeMismatch { expression: Expression::Const(ParsedValue::Boolean(true)), expected: Type::Int, found: Some(Type::Bool) }) => {}
        other => panic!("unexpected {:?}", other),
    }
}

#[test]
fn arithmetic_on_boolean_is_type_mismatch() {
    match eval_fresh(bin(boolean(true), Binop::Add, num(1))) {
        Err(EvalError::TypeMismatch { expression: Expression::Const(ParsedValue::Boolean(true)), expected: Type::Int, found: Some(Type::Bool) }) => {}
        other => panic!("unexpected {:?}", other),
    }
    match eval_fresh(bin(num(1), Binop::And, boolean(true))) {
        Err(EvalError::TypeMismatch { expression: Expression::Const(ParsedValue::Integer(1)), expected: Type::Bool, found: Some(Type::Int) }) => {}
        other => panic!("unexpected {:?}", other),
    }
}

#[test]
fn undefined_identifier() {
    match eval_fresh(var("nope")) {
        Err(EvalError::Undefined(x)) => assert!(x == id("nope")),
        other => panic!("unexpected {:?}", other),
    }
    let mut mem = session();
    match run(&mut mem, assign(var("nope"), num(1))) {
        Err(EvalError::Undefined(x)) => assert!(x == id("nope")),
        other => panic!("unexpected {:?}", other),
    }
}

#[test]
fn redeclaration_in_same_scope_fails() {
    let mut mem = session();
    run(&mut mem, let_("x", false, num(1))).unwrap();
    match run(&mut mem, let_("x", false, num(2))) {
        Err(EvalError::AlreadyDefined(x)) => assert!(x == id("x")),
        other => panic!("unexpected {:?}", other),
    }
    assert_eq!(eval_int(&mut mem, var("x")), 1);
}

#[test]
fn shadowing_in_block_does_not_leak() {
    let mut mem = session();
    run(&mut mem, let_("x", false, num(1))).unwrap();
    let block = Instruction::Block(vec![
        let_("x", false, num(2)),
        Instruction::Expr(bin(var("x"), Binop::Eq, num(2))),
    ]);
    match run(&mut mem, block) {
        Ok((None, Value::Boolean(true))) => {}
        other => panic!("unexpected {:?}", other),
    }
    assert_eq!(eval_int(&mut mem, var("x")), 1);
}

#[test]
fn block_scope_is_left_on_error() {
    let mut mem = session();
    run(&mut mem, let_("x", false, num(1))).unwrap();
    let block = Instruction::Block(vec![
        let_("x", false, num(2)),
        let_("y", false, num(3)),
        Instruction::Expr(bin(num(1), Binop::Div, num(0))),
    ]);
    match run(&mut mem, block) {
        Err(EvalError::DivisionByZero(_)) => {}
        other => panic!("unexpected {:?}", other),
    }
    assert_eq!(eval_int(&mut mem, var("x")), 1);
    match value_of(&mut mem, var("y")) {
        Err(EvalError::Undefined(_)) => {}
        other => panic!("unexpected {:?}", other),
    }
}

#[test]
fn block_value_is_its_last_instruction() {
    let mut mem = session();
    match run(&mut mem, Instruction::Block(vec![])) {
        Ok((None, Value::Unit)) => {}
        other => panic!("unexpected {:?}", other),
    }
    let block = Instruction::Block(vec![Instruction::Expr(num(1)), Instruction::Expr(num(2))]);
    match run(&mut mem, block) {
        Ok((None, Value::Integer(2))) => {}
        other => panic!("unexpected {:?}", other),
    }
}

#[test]
fn block_assigns_outer_binding() {
    let mut mem = session();
    run(&mut mem, let_("x", true, num(1))).unwrap();
    run(&mut mem, Instruction::Block(vec![assign(var("x"), num(9))])).unwrap();
    assert_eq!(eval_int(&mut mem, var("x")), 9);
}

#[test]
fn if_true_never_runs_else_branch() {
    let mut mem = session();
    run(&mut mem, let_("x", false, num(0))).unwrap();
    let i = Instruction::IfElse {
        cond: boolean(true),
        cond_true: Box::new(Instruction::Block(vec![Instruction::Expr(num(1))])),
        cond_false: Box::new(Instruction::Block(vec![Instruction::Free(amp(var("x"))), Instruction::Expr(num(2))])),
    };
    match run(&mut mem, i) {
        Ok((None, Value::Integer(1))) => {}
        other => panic!("unexpected {:?}", other),
    }
}

#[test]
fn if_false_runs_else_branch() {
    let mut mem = session();
    let i = Instruction::IfElse {
        cond: boolean(false),
        cond_true: Box::new(Instruction::Block(vec![Instruction::Expr(num(1))])),
        cond_false: Box::new(Instruction::Block(vec![Instruction::Expr(num(2))])),
    };
    match run(&mut mem, i) {
        Ok((None, Value::Integer(2))) => {}
        other => panic!("unexpected {:?}", other),
    }
    let bad = Instruction::IfElse {
        cond: num(1),
        cond_true: Box::new(Instruction::Block(vec![])),
        cond_false: Box::new(Instruction::Block(vec![])),
    };
    match run(&mut mem, bad) {
        Err(EvalError::TypeMismatch { expected: Type::Bool, found: Some(Type::Int), .. }) => {}
        other => panic!("unexpected {:?}", other),
    }
}

#[test]
fn conditional_expression_evaluates_one_branch() {
    let mut mem = session();
    run(&mut mem, let_("x", false, num(0))).unwrap();
    let e = Expression::Conditional {
        cond: Box::new(boolean(true)),
        cond_true: Box::new(num(1)),
        cond_false: Box::new(bin(num(1), Binop::Div, var("x"))),
    };
    match value_of(&mut mem, e) {
        Ok(Value::Integer(1)) => {}
        other => panic!("unexpected {:?}", other),
    }
}

#[test]
fn while_body_declarations_do_not_accumulate() {
    let mut mem = session();
    run(&mut mem, let_("i", true, num(0))).unwrap();
    let body = Instruction::Block(vec![
        let_("y", false, var("i")),
        assign(var("i"), bin(var("y"), Binop::Add, num(1))),
    ]);
    let w = Instruction::While(bin(var("i"), Binop::Lt, num(3)), Box::new(body));
    match run(&mut mem, w) {
        Ok((None, Value::Unit)) => {}
        other => panic!("unexpected {:?}", other),
    }
    assert_eq!(eval_int(&mut mem, var("i")), 3);
    match value_of(&mut mem, var("y")) {
        Err(EvalError::Undefined(_)) => {}
        other => panic!("unexpected {:?}", other),
    }
}

#[test]
fn while_sums_heap_cell() {
    let mut mem = session();
    run(&mut mem, let_("p", false, Expression::NewPtr)).unwrap();
    run(&mut mem, assign(deref(var("p")), num(0))).unwrap();
    run(&mut mem, let_("i", true, num(1))).unwrap();
    let body = Instruction::Block(vec![
        assign(deref(var("p")), bin(deref(var("p")), Binop::Add, var("i"))),
        assign(var("i"), bin(var("i"), Binop::Add, num(1))),
    ]);
    run(&mut mem, Instruction::While(bin(var("i"), Binop::Leq, num(10)), Box::new(body))).unwrap();
    assert_eq!(eval_int(&mut mem, deref(var("p"))), 55);
}

#[test]
fn heap_slots_are_reused_first_fit() {
    let mut mem = session();
    run(&mut mem, let_("a", false, Expression::NewPtr)).unwrap();
    run(&mut mem, let_("b", false, Expression::NewPtr)).unwrap();
    run(&mut mem, let_("c", false, Expression::NewPtr)).unwrap();
    run(&mut mem, Instruction::Free(var("b"))).unwrap();
    run(&mut mem, let_("d", false, Expression::NewPtr)).unwrap();
    match value_of(&mut mem, bin(var("d"), Binop::Eq, var("b"))) {
        Ok(Value::Boolean(true)) => {}
        other => panic!("unexpected {:?}", other),
    }
}

#[test]
fn exec_parsed_passes_parse_errors_on() {
    let mut mem = session();
    match exec_parsed(Err(ParseError::CannotParse), &mut mem) {
        Err(Error::ParseError(ParseError::CannotParse)) => {}
        other => panic!("unexpected {:?}", other),
    }
    match exec_parsed(Ok(let_("x", false, num(4))), &mut mem) {
        Ok((Some(x), Value::Integer(4))) => assert!(x == id("x")),
        other => panic!("unexpected {:?}", other),
    }
    match exec_parsed(Ok(Instruction::Expr(var("zz"))), &mut mem) {
        Err(Error::EvalError(EvalError::Undefined(_))) => {}
        other => panic!("unexpected {:?}", other),
    }
}
