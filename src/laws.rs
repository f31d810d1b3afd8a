//! Properties of the evaluator and of the memory it works on, proved over
//! the model that the evaluator's contracts speak of.

use vstd::prelude::*;

use crate::ast::{Binop, Expression, Instruction};
use crate::error::EvalError;
use crate::heap::{
    alloc_slot,
    heap_after_alloc,
    heap_after_free,
    lemma_alloc_slot,
    lemma_lowest_free_none,
    lemma_lowest_free_some,
};
use crate::identifier::Identifier;
use crate::memory::{Address, MemoryView, mem_after_alloc, mem_read};
use crate::memorycell::{MemoryCell, fresh_cell};
use crate::namespacestack::{
    Frames,
    frame_of,
    lemma_frame_of,
    lemma_frame_of_is_innermost,
    lemma_innermost_some,
    stack_declare,
    stack_find,
    stack_set,
};
use crate::pointer::{group_pointer, pointer_to};
use crate::semantics::{MAX_ITERATIONS, as_int, eval_spec, exec_seq_spec, exec_spec, while_spec, write_spec};
use crate::value::{Type, Value};

verus! {

broadcast use group_pointer;

/// Evaluating an expression never changes the stack: only `new` touches
/// memory, and only the heap.
pub proof fn lemma_eval_keeps_frames(e: Expression, m: MemoryView)
    ensures
        eval_spec(e, m).1.frames == m.frames,
    decreases e,
{
    match e {
        Expression::BinOp(l, _, r) => {
            lemma_eval_keeps_frames(*l, m);
            lemma_eval_keeps_frames(*r, eval_spec(*l, m).1);
        },
        Expression::Conditional { cond, cond_true, cond_false } => {
            lemma_eval_keeps_frames(*cond, m);
            lemma_eval_keeps_frames(*cond_true, eval_spec(*cond, m).1);
            lemma_eval_keeps_frames(*cond_false, eval_spec(*cond, m).1);
        },
        Expression::Deref(inner) => {
            lemma_eval_keeps_frames(*inner, m);
        },
        _ => {},
    }
}

/// Both stacks have the same scopes, each binding the same names.
pub open spec fn same_bindings(a: Frames, b: Frames) -> bool {
    &&& a.len() == b.len()
    &&& forall|j: int| 0 <= j < a.len() ==> (#[trigger] b[j]).dom() == a[j].dom()
}

/// `b` has the scopes of `a`, each binding the same names, but for the
/// innermost one, which may bind more.
pub open spec fn bindings_grow_on_top(a: Frames, b: Frames) -> bool {
    &&& a.len() == b.len()
    &&& forall|j: int| 0 <= j < a.len() - 1 ==> (#[trigger] b[j]).dom() == a[j].dom()
    &&& a.len() > 0 ==> a.last().dom().subset_of(b.last().dom())
}

proof fn lemma_write_bindings(lhs: Expression, rhs: Expression, m: MemoryView)
    ensures
        same_bindings(m.frames, write_spec(lhs, rhs, m).1.frames),
{
    match lhs {
        Expression::Deref(inner) => {
            lemma_eval_keeps_frames(*inner, m);
            let m1 = eval_spec(*inner, m).1;
            lemma_eval_keeps_frames(rhs, m1);
            let m2 = eval_spec(rhs, m1).1;
            let w = write_spec(lhs, rhs, m).1;
            assert forall|j: int| 0 <= j < m.frames.len() implies (#[trigger] w.frames[j]).dom()
                =~= m.frames[j].dom() by {}
        },
        Expression::Identifier(id) => {
            lemma_eval_keeps_frames(rhs, m);
            crate::namespacestack::lemma_frame_of(m.frames, id@);
            let w = write_spec(lhs, rhs, m).1;
            assert forall|j: int| 0 <= j < m.frames.len() implies (#[trigger] w.frames[j]).dom()
                =~= m.frames[j].dom() by {}
        },
        _ => {},
    }
}

proof fn lemma_exec_bindings(i: Instruction, m: MemoryView)
    requires
        m.frames.len() > 0,
    ensures
        bindings_grow_on_top(m.frames, exec_spec(i, m).1.frames),
        i is Block ==> same_bindings(m.frames, exec_spec(i, m).1.frames),
    decreases i, 0nat,
{
    let out = exec_spec(i, m).1;
    match i {
        Instruction::Expr(e) => {
            lemma_eval_keeps_frames(e, m);
        },
        Instruction::Let { id, mutable, expr } => {
            lemma_eval_keeps_frames(expr, m);
            let f = m.frames;
            let top = f.len() - 1;
            assert(f.last() == f[top]);
            assert(out.frames.last() == out.frames[top]);
        },
        Instruction::Block(instrs) => {
            let inner = m.with_frames(m.frames.push(Map::empty()));
            lemma_seq_bindings(instrs@, 0, inner, Value::Unit);
            let m1 = exec_seq_spec(instrs@, 0, inner, Value::Unit).1;
            assert forall|j: int| 0 <= j < m.frames.len() implies (#[trigger] out.frames[j]).dom()
                == m.frames[j].dom() by {
                assert(inner.frames[j] == m.frames[j]);
                assert(out.frames[j] == m1.frames[j]);
            }
        },
        Instruction::IfElse { cond, cond_true, cond_false } => {
            lemma_eval_keeps_frames(cond, m);
            let m1 = eval_spec(cond, m).1;
            lemma_exec_bindings(*cond_true, m1);
            lemma_exec_bindings(*cond_false, m1);
        },
        Instruction::While(cond, body) => {
            lemma_while_bindings(cond, *body, m, MAX_ITERATIONS as nat);
        },
        Instruction::WriteAt(lhs, rhs) => {
            lemma_write_bindings(lhs, rhs, m);
        },
        Instruction::Free(e) => {
            lemma_eval_keeps_frames(e, m);
        },
    }
}

proof fn lemma_seq_bindings(s: Seq<Instruction>, k: int, m: MemoryView, last: Value)
    requires
        m.frames.len() > 0,
    ensures
        bindings_grow_on_top(m.frames, exec_seq_spec(s, k, m, last).1.frames),
    decreases s, s.len() - k,
{
    if 0 <= k < s.len() {
        lemma_exec_bindings(s[k], m);
        let (r, m1) = exec_spec(s[k], m);
        if let Ok((_, v)) = r {
            lemma_seq_bindings(s, k + 1, m1, v);
        }
    }
}

proof fn lemma_while_bindings(cond: Expression, body: Instruction, m: MemoryView, fuel: nat)
    requires
        m.frames.len() > 0,
    ensures
        bindings_grow_on_top(m.frames, while_spec(cond, body, m, fuel).1.frames),
        body is Block ==> same_bindings(m.frames, while_spec(cond, body, m, fuel).1.frames),
    decreases body, fuel + 1,
{
    lemma_eval_keeps_frames(cond, m);
    let m1 = eval_spec(cond, m).1;
    if fuel > 0 {
        lemma_exec_bindings(body, m1);
        let (rb, m2) = exec_spec(body, m1);
        if rb is Ok {
            lemma_while_bindings(cond, body, m2, (fuel - 1) as nat);
        }
    }
}

/// A block leaves every scope binding exactly the names it bound before,
/// whether the block completed or failed part way: what the block declared
/// does not outlive it.
pub proof fn law_block_declarations_do_not_leak(instrs: Vec<Instruction>, m: MemoryView)
    requires
        m.frames.len() > 0,
    ensures
        same_bindings(m.frames, exec_spec(Instruction::Block(instrs), m).1.frames),
{
    lemma_exec_bindings(Instruction::Block(instrs), m);
}

/// A `while` loop whose body is a block leaves every scope binding exactly
/// the names it bound before: each iteration starts from the bindings that
/// held before the loop, so nothing declared in one iteration is seen by the
/// next.
pub proof fn law_loop_iterations_do_not_accumulate(
    cond: Expression,
    body: Vec<Instruction>,
    m: MemoryView,
    fuel: nat,
)
    requires
        m.frames.len() > 0,
    ensures
        same_bindings(m.frames, while_spec(cond, Instruction::Block(body), m, fuel).1.frames),
        same_bindings(
            m.frames,
            exec_spec(Instruction::While(cond, Box::new(Instruction::Block(body))), m).1.frames,
        ),
{
    lemma_while_bindings(cond, Instruction::Block(body), m, fuel);
    lemma_while_bindings(cond, Instruction::Block(body), m, MAX_ITERATIONS as nat);
}

/// The heap after `n` allocations, starting from an empty one.
pub open spec fn heap_after_allocs(n: nat) -> Seq<MemoryCell>
    decreases n,
{
    if n == 0 {
        Seq::empty()
    } else {
        heap_after_alloc(heap_after_allocs((n - 1) as nat))
    }
}

proof fn lemma_allocs_all_allocated(n: nat)
    ensures
        heap_after_allocs(n).len() == n,
        forall|j: int| 0 <= j < n ==> (#[trigger] heap_after_allocs(n)[j]) is AllocatedCell,
        n > 0 ==> alloc_slot(heap_after_allocs((n - 1) as nat)) == n - 1,
    decreases n,
{
    if n > 0 {
        let h = heap_after_allocs((n - 1) as nat);
        lemma_allocs_all_allocated((n - 1) as nat);
        lemma_lowest_free_none(h, h.len());
        assert(heap_after_allocs(n) == h.push(fresh_cell()));
    }
}

/// Allocation is first fit: after `n` allocations from an empty heap, which
/// took the slots `0` to `n - 1` in turn, freeing slot `i` and allocating
/// again gives slot `i` back, and the heap does not grow.
pub proof fn law_allocation_reuses_lowest_freed_slot(n: nat, i: nat)
    requires
        i < n,
    ensures
        forall|k: nat| k < n ==> alloc_slot(#[trigger] heap_after_allocs(k)) == k,
        alloc_slot(heap_after_free(heap_after_allocs(n), i as int)) == i,
        heap_after_alloc(heap_after_free(heap_after_allocs(n), i as int)).len() == n,
{
    assert forall|k: nat| k < n implies alloc_slot(#[trigger] heap_after_allocs(k)) == k by {
        lemma_allocs_all_allocated(k + 1);
    }
    lemma_allocs_all_allocated(n);
    let h = heap_after_free(heap_after_allocs(n), i as int);
    lemma_lowest_free_some(h, n, i);
}

/// Division and remainder by zero fail with `DivisionByZero`, naming the
/// right operand, whatever the left operand is.
pub proof fn law_division_by_zero(l: Expression, op: Binop, r: Expression, m: MemoryView)
    requires
        op is Div || op is Mod,
        as_int(eval_spec(l, m).0, l) is Ok,
        eval_spec(r, eval_spec(l, m).1).0 == Ok::<Value, EvalError>(Value::Integer(0)),
    ensures
        eval_spec(Expression::BinOp(Box::new(l), op, Box::new(r)), m).0 == Err::<Value, EvalError>(
            EvalError::DivisionByZero(r),
        ),
{
}

/// A conditional instruction runs only the branch that its condition
/// selects: the other branch has no part in the outcome or the memory after.
pub proof fn law_if_runs_one_branch(
    cond: Expression,
    cond_true: Instruction,
    cond_false: Instruction,
    other: Instruction,
    m: MemoryView,
)
    ensures
        eval_spec(cond, m).0 == Ok::<Value, EvalError>(Value::Boolean(true)) ==> {
            &&& exec_spec(
                Instruction::IfElse { cond, cond_true: Box::new(cond_true), cond_false: Box::new(cond_false) },
                m,
            ) == exec_spec(cond_true, eval_spec(cond, m).1)
            &&& exec_spec(
                Instruction::IfElse { cond, cond_true: Box::new(cond_true), cond_false: Box::new(cond_false) },
                m,
            ) == exec_spec(
                Instruction::IfElse { cond, cond_true: Box::new(cond_true), cond_false: Box::new(other) },
                m,
            )
        },
        eval_spec(cond, m).0 == Ok::<Value, EvalError>(Value::Boolean(false)) ==> {
            &&& exec_spec(
                Instruction::IfElse { cond, cond_true: Box::new(cond_true), cond_false: Box::new(cond_false) },
                m,
            ) == exec_spec(cond_false, eval_spec(cond, m).1)
            &&& exec_spec(
                Instruction::IfElse { cond, cond_true: Box::new(cond_true), cond_false: Box::new(cond_false) },
                m,
            ) == exec_spec(
                Instruction::IfElse { cond, cond_true: Box::new(other), cond_false: Box::new(cond_false) },
                m,
            )
        },
{
}

/// A conditional expression evaluates only the branch that its condition
/// selects.
pub proof fn law_conditional_evaluates_one_branch(
    cond: Expression,
    cond_true: Expression,
    cond_false: Expression,
    other: Expression,
    m: MemoryView,
)
    ensures
        eval_spec(cond, m).0 == Ok::<Value, EvalError>(Value::Boolean(true)) ==> {
            &&& eval_spec(
                Expression::Conditional { cond: Box::new(cond), cond_true: Box::new(cond_true), cond_false: Box::new(cond_false) },
                m,
            ) == eval_spec(cond_true, eval_spec(cond, m).1)
            &&& eval_spec(
                Expression::Conditional { cond: Box::new(cond), cond_true: Box::new(cond_true), cond_false: Box::new(cond_false) },
                m,
            ) == eval_spec(
                Expression::Conditional { cond: Box::new(cond), cond_true: Box::new(cond_true), cond_false: Box::new(other) },
                m,
            )
        },
        eval_spec(cond, m).0 == Ok::<Value, EvalError>(Value::Boolean(false)) ==> {
            &&& eval_spec(
                Expression::Conditional { cond: Box::new(cond), cond_true: Box::new(cond_true), cond_false: Box::new(cond_false) },
                m,
            ) == eval_spec(cond_false, eval_spec(cond, m).1)
            &&& eval_spec(
                Expression::Conditional { cond: Box::new(cond), cond_true: Box::new(cond_true), cond_false: Box::new(cond_false) },
                m,
            ) == eval_spec(
                Expression::Conditional { cond: Box::new(cond), cond_true: Box::new(other), cond_false: Box::new(cond_false) },
                m,
            )
        },
{
}

/// Freeing a pointer to a binding of the stack fails with
/// `CannotFreeOwnedValue` and changes nothing: only heap cells can be freed.
pub proof fn law_free_of_stack_binding_fails(x: Identifier, m: MemoryView)
    requires
        frame_of(m.frames, x@) is Some,
    ensures
        exec_spec(Instruction::Free(Expression::AmpersAnd(Box::new(Expression::Identifier(x)))), m)
            == (
            Err::<(Option<Identifier>, Value), EvalError>(
                EvalError::CannotFreeOwnedValue(
                    Some(Expression::AmpersAnd(Box::new(Expression::Identifier(x)))),
                ),
            ),
            m,
        ),
{
}

/// `let p = new; free p` succeeds, and reading `*p` afterwards fails with
/// `NonAllocatedCell`, naming `p`.
pub proof fn law_deref_after_free_fails(p: Identifier, m: MemoryView)
    requires
        m.frames.len() > 0,
        !m.frames.last().contains_key(p@),
        m.heap.len() < usize::MAX,
    ensures
        ({
            let (r1, m1) = exec_spec(
                Instruction::Let { id: p, mutable: false, expr: Expression::NewPtr },
                m,
            );
            let (r2, m2) = exec_spec(Instruction::Free(Expression::Identifier(p)), m1);
            &&& r1 is Ok
            &&& r2 == Ok::<(Option<Identifier>, Value), EvalError>((None, Value::Unit))
            &&& eval_spec(Expression::Deref(Box::new(Expression::Identifier(p))), m2).0 == Err::<
                Value,
                EvalError,
            >(EvalError::NonAllocatedCell(Some(Expression::Identifier(p))))
        }),
{
    lemma_alloc_slot(m.heap);
    let top = m.frames.len() - 1;
    assert(m.frames.last() == m.frames[top]);
    let slot = alloc_slot(m.heap);
    let ptr = Value::Pointer(pointer_to(Address::HeapAddress(slot as usize)));
    let (r1, m1) = exec_spec(Instruction::Let { id: p, mutable: false, expr: Expression::NewPtr }, m);
    assert(eval_spec(Expression::NewPtr, m) == (Ok::<Value, EvalError>(ptr), mem_after_alloc(m)));
    assert(m1.frames[top].contains_key(p@));
    assert(frame_of(m1.frames, p@) == Some(top as nat));
    assert(stack_find(m1.frames, p) == Ok::<Value, EvalError>(ptr));
    let (r2, m2) = exec_spec(Instruction::Free(Expression::Identifier(p)), m1);
    assert(m2.heap[slot as int] is NotAllocated);
    assert(eval_spec(Expression::Identifier(p), m2) == (Ok::<Value, EvalError>(ptr), m2));
}

/// `*(&x)` is the current value of `x`.
pub proof fn law_deref_of_address_of(x: Identifier, m: MemoryView)
    requires
        m.frames.len() <= usize::MAX,
        stack_find(m.frames, x) is Ok,
    ensures
        eval_spec(
            Expression::Deref(Box::new(Expression::AmpersAnd(Box::new(Expression::Identifier(x))))),
            m,
        ) == eval_spec(Expression::Identifier(x), m),
{
    lemma_frame_of(m.frames, x@);
    let f = frame_of(m.frames, x@)->Some_0;
    let amp = Expression::AmpersAnd(Box::new(Expression::Identifier(x)));
    let ptr = pointer_to(Address::StackAddress(f as usize, x));
    assert(eval_spec(amp, m) == (Ok::<Value, EvalError>(Value::Pointer(ptr)), m));
    assert(mem_read(m, ptr.addr()) == stack_find(m.frames, x));
}

/// A pointer taken with `&x` designates the binding, not a copy of its
/// value: once `x` is assigned `v`, reading through the pointer gives `v`.
pub proof fn law_address_of_follows_assignment(x: Identifier, v: Value, m: MemoryView)
    requires
        m.frames.len() <= usize::MAX,
        stack_set(m.frames, x, v) is Ok,
    ensures
        match eval_spec(Expression::AmpersAnd(Box::new(Expression::Identifier(x))), m).0 {
            Ok(Value::Pointer(ptr)) => mem_read(
                m.with_frames(stack_set(m.frames, x, v)->Ok_0),
                ptr.addr(),
            ) == Ok::<Value, EvalError>(v),
            _ => false,
        },
{
    lemma_frame_of(m.frames, x@);
}

/// Assigning to a name whose binding is immutable fails with `NotMutable`,
/// naming it, and changes no binding.
pub proof fn law_assignment_to_immutable_fails(x: Identifier, e: Expression, m: MemoryView)
    requires
        frame_of(m.frames, x@) matches Some(f) && !m.frames[f as int][x@].is_mutable_cell(),
        eval_spec(e, m).0 is Ok,
    ensures
        exec_spec(Instruction::WriteAt(Expression::Identifier(x), e), m) == (
            Err::<(Option<Identifier>, Value), EvalError>(
                EvalError::NotMutable(Some(Expression::Identifier(x))),
            ),
            eval_spec(e, m).1,
        ),
{
    lemma_eval_keeps_frames(e, m);
}

/// Assigning `v` to a name whose binding is mutable succeeds, and the name
/// reads `v` afterwards.
pub proof fn law_assignment_to_mutable_is_seen(x: Identifier, e: Expression, v: Value, m: MemoryView)
    requires
        frame_of(m.frames, x@) matches Some(f) && m.frames[f as int][x@].is_mutable_cell(),
        eval_spec(e, m).0 == Ok::<Value, EvalError>(v),
    ensures
        ({
            let (r, m2) = exec_spec(Instruction::WriteAt(Expression::Identifier(x), e), m);
            &&& r == Ok::<(Option<Identifier>, Value), EvalError>((Some(x), v))
            &&& eval_spec(Expression::Identifier(x), m2).0 == Ok::<Value, EvalError>(v)
        }),
{
    lemma_eval_keeps_frames(e, m);
    lemma_frame_of(m.frames, x@);
    let f = frame_of(m.frames, x@)->Some_0;
    let m2 = exec_spec(Instruction::WriteAt(Expression::Identifier(x), e), m).1;
    assert forall|t: int| f < t < m2.frames.len() implies !(#[trigger] m2.frames[t]).contains_key(
        x@,
    ) by {
        lemma_frame_of_is_innermost(m.frames, x@, t);
    }
    lemma_innermost_some(m2.frames, x@, m2.frames.len(), f);
}

/// In a new scope, a declaration of a name that an outer scope binds
/// succeeds, and the name then reads the inner value.
pub proof fn law_inner_declaration_shadows(x: Identifier, mutable: bool, v: Value, frames: Frames)
    ensures
        ({
            let inner = frames.push(Map::empty());
            &&& stack_declare(inner, x, mutable, v) is Ok
            &&& stack_find(stack_declare(inner, x, mutable, v)->Ok_0, x) == Ok::<Value, EvalError>(v)
        }),
{
    let inner = frames.push(Map::empty());
    let top = inner.len() - 1;
    let after = stack_declare(inner, x, mutable, v)->Ok_0;
    assert(after[top].contains_key(x@));
    assert(frame_of(after, x@) == Some(top as nat));
}

/// An instruction with no assignment in it, at any depth: it can declare
/// names and read memory, but write no binding.
pub open spec fn assigns_nothing(i: Instruction) -> bool
    decreases i,
{
    match i {
        Instruction::WriteAt(_, _) => false,
        Instruction::Block(instrs) => forall|k: int|
            0 <= k < instrs@.len() ==> assigns_nothing(#[trigger] instrs@[k]),
        Instruction::IfElse { cond: _, cond_true, cond_false } => assigns_nothing(*cond_true)
            && assigns_nothing(*cond_false),
        Instruction::While(_, body) => assigns_nothing(*body),
        _ => true,
    }
}

/// `b` is `a`, but for the innermost scope, which may bind more names; the
/// names that `a` bound there keep their cells.
pub open spec fn extended_on_top(a: Frames, b: Frames) -> bool {
    &&& a.len() == b.len()
    &&& forall|j: int| 0 <= j < a.len() - 1 ==> #[trigger] b[j] == a[j]
    &&& a.len() > 0 ==> a.last().submap_of(b.last())
}

proof fn lemma_extended_trans(a: Frames, b: Frames, c: Frames)
    requires
        extended_on_top(a, b),
        extended_on_top(b, c),
    ensures
        extended_on_top(a, c),
{
    if a.len() > 0 {
        vstd::map_lib::lemma_submap_of_trans(a.last(), b.last(), c.last());
    }
}

proof fn lemma_exec_extends(i: Instruction, m: MemoryView)
    requires
        m.frames.len() > 0,
        assigns_nothing(i),
    ensures
        extended_on_top(m.frames, exec_spec(i, m).1.frames),
        i is Block ==> exec_spec(i, m).1.frames == m.frames,
    decreases i, 0nat,
{
    let out = exec_spec(i, m).1;
    match i {
        Instruction::Expr(e) => {
            lemma_eval_keeps_frames(e, m);
        },
        Instruction::Let { id, mutable, expr } => {
            lemma_eval_keeps_frames(expr, m);
            let f = m.frames;
            let top = f.len() - 1;
            assert(f.last() == f[top]);
            assert(out.frames.last() == out.frames[top]);
        },
        Instruction::Block(instrs) => {
            let inner = m.with_frames(m.frames.push(Map::empty()));
            lemma_seq_extends(instrs@, 0, inner, Value::Unit);
            let m1 = exec_seq_spec(instrs@, 0, inner, Value::Unit).1;
            assert forall|j: int| 0 <= j < m.frames.len() implies #[trigger] out.frames[j]
                == m.frames[j] by {
                assert(inner.frames[j] == m.frames[j]);
                assert(out.frames[j] == m1.frames[j]);
            }
            assert(out.frames =~= m.frames);
        },
        Instruction::IfElse { cond, cond_true, cond_false } => {
            lemma_eval_keeps_frames(cond, m);
            let m1 = eval_spec(cond, m).1;
            lemma_exec_extends(*cond_true, m1);
            lemma_exec_extends(*cond_false, m1);
        },
        Instruction::While(cond, body) => {
            lemma_while_extends(cond, *body, m, MAX_ITERATIONS as nat);
        },
        Instruction::Free(e) => {
            lemma_eval_keeps_frames(e, m);
        },
        Instruction::WriteAt(_, _) => {},
    }
}

proof fn lemma_seq_extends(s: Seq<Instruction>, k: int, m: MemoryView, last: Value)
    requires
        m.frames.len() > 0,
        forall|t: int| 0 <= t < s.len() ==> assigns_nothing(#[trigger] s[t]),
    ensures
        extended_on_top(m.frames, exec_seq_spec(s, k, m, last).1.frames),
    decreases s, s.len() - k,
{
    if 0 <= k < s.len() {
        lemma_exec_extends(s[k], m);
        let (r, m1) = exec_spec(s[k], m);
        if let Ok((_, v)) = r {
            lemma_seq_extends(s, k + 1, m1, v);
            lemma_extended_trans(m.frames, m1.frames, exec_seq_spec(s, k + 1, m1, v).1.frames);
        }
    }
}

proof fn lemma_while_extends(cond: Expression, body: Instruction, m: MemoryView, fuel: nat)
    requires
        m.frames.len() > 0,
        assigns_nothing(body),
    ensures
        extended_on_top(m.frames, while_spec(cond, body, m, fuel).1.frames),
        body is Block ==> while_spec(cond, body, m, fuel).1.frames == m.frames,
    decreases body, fuel + 1,
{
    lemma_eval_keeps_frames(cond, m);
    let m1 = eval_spec(cond, m).1;
    if fuel > 0 {
        lemma_exec_extends(body, m1);
        let (rb, m2) = exec_spec(body, m1);
        if rb is Ok {
            lemma_while_extends(cond, body, m2, (fuel - 1) as nat);
            lemma_extended_trans(
                m.frames,
                m2.frames,
                while_spec(cond, body, m2, (fuel - 1) as nat).1.frames,
            );
        }
    }
}

/// A block that assigns nothing leaves the stack exactly as it found it,
/// whether it completed or failed: what it declared, shadowing or not, is
/// gone, and every outer name still reads what it read before.
pub proof fn law_block_without_assignment_keeps_outer_bindings(instrs: Vec<Instruction>, m: MemoryView)
    requires
        m.frames.len() > 0,
        forall|k: int| 0 <= k < instrs@.len() ==> assigns_nothing(#[trigger] instrs@[k]),
    ensures
        exec_spec(Instruction::Block(instrs), m).1.frames == m.frames,
        forall|x: Identifier| #[trigger] stack_find(exec_spec(Instruction::Block(instrs), m).1.frames, x)
            == stack_find(m.frames, x),
{
    lemma_exec_extends(Instruction::Block(instrs), m);
}

/// `&e` of anything but a name, `new` included, fails with a type mismatch
/// that names `e`, expects a pointer and finds no type, and memory is left
/// as it was.
pub proof fn law_address_of_non_name_fails(e: Expression, m: MemoryView)
    requires
        !(e is Identifier),
    ensures
        eval_spec(Expression::AmpersAnd(Box::new(e)), m) == (
            Err::<Value, EvalError>(
                EvalError::TypeMismatch { expression: e, expected: Type::Pointer, found: None },
            ),
            m,
        ),
{
}

} // verus!
