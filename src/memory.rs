//! Addresses, and the memory that unites the stack and the heap behind them.

use vstd::prelude::*;

use crate::ast::ParsedValue;
use crate::error::EvalError;
use crate::heap::{Heap, alloc_slot, heap_after_alloc, heap_after_free, heap_read, heap_write};
use crate::identifier::Identifier;
use crate::memorycell::MemoryCell;
use crate::namespace::NameSpace;
use crate::namespacestack::{
    Frames,
    NameSpaceStack,
    stack_address,
    stack_declare,
    stack_find,
    stack_read_at,
    stack_set,
    stack_write_at,
};
use crate::value::{Type, Value, type_of};

verus! {

/// A location in memory: a binding of a given frame of the stack, or a slot
/// of the heap.
#[derive(Debug)]
pub enum Address {
    StackAddress(usize, Identifier),
    HeapAddress(usize),
}

impl Clone for Address {
    fn clone(&self) -> (r: Address)
        ensures
            r == *self,
    {
        match self {
            Address::StackAddress(frame, id) => Address::StackAddress(*frame, id.clone()),
            Address::HeapAddress(slot) => Address::HeapAddress(*slot),
        }
    }
}

/// Whether two addresses designate the same location.
pub open spec fn same_address(a: Address, b: Address) -> bool {
    match (a, b) {
        (Address::StackAddress(f, x), Address::StackAddress(g, y)) => f == g && x@ == y@,
        (Address::HeapAddress(n), Address::HeapAddress(k)) => n == k,
        _ => false,
    }
}

impl PartialEq for Address {
    fn eq(&self, other: &Address) -> (r: bool)
        ensures
            r == same_address(*self, *other),
    {
        match (self, other) {
            (Address::StackAddress(f, x), Address::StackAddress(g, y)) => *f == *g && *x == *y,
            (Address::HeapAddress(n), Address::HeapAddress(k)) => *n == *k,
            _ => false,
        }
    }
}

impl vstd::std_specs::cmp::PartialEqSpecImpl for Address {
    open spec fn obeys_eq_spec() -> bool {
        true
    }

    open spec fn eq_spec(&self, other: &Address) -> bool {
        same_address(*self, *other)
    }
}

/// The model of the whole memory: the scopes of the stack, outermost first,
/// and the cells of the heap.
pub struct MemoryView {
    pub frames: Frames,
    pub heap: Seq<MemoryCell>,
}

impl MemoryView {
    /// This memory with its stack replaced by `f`.
    pub open spec fn with_frames(self, f: Frames) -> MemoryView {
        MemoryView { frames: f, ..self }
    }

    /// This memory with its heap replaced by `h`.
    pub open spec fn with_heap(self, h: Seq<MemoryCell>) -> MemoryView {
        MemoryView { heap: h, ..self }
    }
}

/// What reading at `a` gives: a stack address reads its own frame, whatever
/// inner scopes bind the same name.
pub open spec fn mem_read(m: MemoryView, a: Address) -> Result<Value, EvalError> {
    match a {
        Address::HeapAddress(n) => heap_read(m.heap, n as int),
        Address::StackAddress(f, id) => stack_read_at(m.frames, f as int, id@),
    }
}

/// What writing `v` at `a` gives: the new memory, or why it cannot be
/// written. Writing through a stack address is supported on purpose: like
/// reading, it goes to the binding of the named frame, and only a mutable
/// binding can be written.
pub open spec fn mem_write(m: MemoryView, a: Address, v: Value) -> Result<MemoryView, EvalError> {
    match a {
        Address::HeapAddress(n) => match heap_write(m.heap, n as int, v) {
            Ok(h) => Ok(m.with_heap(h)),
            Err(e) => Err(e),
        },
        Address::StackAddress(f, id) => match stack_write_at(m.frames, f as int, id@, v) {
            Ok(fs) => Ok(m.with_frames(fs)),
            Err(e) => Err(e),
        },
    }
}

/// The literal that writes a value which is not a pointer.
pub open spec fn literal_of(v: Value) -> ParsedValue {
    match v {
        Value::Integer(i) => ParsedValue::Integer(i),
        Value::Boolean(b) => ParsedValue::Boolean(b),
        _ => ParsedValue::Unit,
    }
}

/// What `free` of `v` gives: only a pointer to the heap can be freed.
pub open spec fn mem_free(m: MemoryView, v: Value) -> Result<MemoryView, EvalError> {
    match v {
        Value::Pointer(p) => match p.addr() {
            Address::HeapAddress(n) => Ok(m.with_heap(heap_after_free(m.heap, n as int))),
            Address::StackAddress(_, _) => Err(EvalError::CannotFreeOwnedValue(None)),
        },
        _ => Err(
            EvalError::TypeMismatch {
                expression: crate::ast::Expression::Const(literal_of(v)),
                expected: Type::Pointer,
                found: Some(type_of(v)),
            },
        ),
    }
}

/// The memory after an allocation.
pub open spec fn mem_after_alloc(m: MemoryView) -> MemoryView {
    m.with_heap(heap_after_alloc(m.heap))
}

/// The stack of scopes and the heap, behind one address space.
#[derive(Debug)]
pub struct Memory {
    stack: NameSpaceStack,
    heap: Heap,
}

impl View for Memory {
    type V = MemoryView;

    closed spec fn view(&self) -> MemoryView {
        MemoryView { frames: self.stack@, heap: self.heap@ }
    }
}

impl Memory {
    /// A memory with no scope and an empty heap.
    pub fn new() -> (r: Memory)
        ensures
            r@.frames.len() == 0,
            r@.heap.len() == 0,
    {
        Memory { stack: NameSpaceStack::new(), heap: Heap::new() }
    }

    /// The number of scopes on the stack.
    pub fn scope_count(&self) -> (r: usize)
        ensures
            r == self@.frames.len(),
    {
        self.stack.len()
    }

    /// Leaves the innermost scope.
    pub fn pop(&mut self) -> (r: Option<NameSpace>)
        ensures
            old(self)@.frames.len() == 0 ==> r is None && final(self)@ == old(self)@,
            old(self)@.frames.len() > 0 ==> r is Some && r->0@ == old(self)@.frames.last()
                && final(self)@ == old(self)@.with_frames(old(self)@.frames.drop_last()),
    {
        self.stack.pop()
    }

    /// Enters `ns` as the innermost scope.
    pub fn push(&mut self, ns: NameSpace)
        ensures
            final(self)@ == old(self)@.with_frames(old(self)@.frames.push(ns@)),
    {
        self.stack.push(ns)
    }

    /// Declares `id` in the innermost scope.
    pub fn declare(&mut self, id: &Identifier, mutable: bool, value: Value) -> (r: Result<(), EvalError>)
        requires
            old(self)@.frames.len() > 0,
        ensures
            match stack_declare(old(self)@.frames, *id, mutable, value) {
                Ok(f) => r is Ok && final(self)@ == old(self)@.with_frames(f),
                Err(e) => r == Err::<(), EvalError>(e) && final(self)@ == old(self)@,
            },
    {
        self.stack.declare(id, mutable, value)
    }

    /// Assigns `value` to the binding that `id` denotes.
    pub fn write_var(&mut self, id: &Identifier, value: &Value) -> (r: Result<(), EvalError>)
        ensures
            final(self)@.frames.len() == old(self)@.frames.len(),
            match stack_set(old(self)@.frames, *id, *value) {
                Ok(f) => r is Ok && final(self)@ == old(self)@.with_frames(f),
                Err(e) => r == Err::<(), EvalError>(e) && final(self)@ == old(self)@,
            },
    {
        self.stack.set(id, value.clone())
    }

    /// The stack address of the binding that `id` denotes.
    pub fn get_address(&self, id: &Identifier) -> (r: Result<Address, EvalError>)
        ensures
            r == stack_address(self@.frames, *id),
    {
        self.stack.get_address(id)
    }

    /// The value of the binding that `id` denotes.
    pub fn find(&self, id: &Identifier) -> (r: Result<Value, EvalError>)
        ensures
            r == stack_find(self@.frames, *id),
    {
        self.stack.find(id)
    }

    /// Allocates a heap cell.
    pub fn malloc(&mut self) -> (r: Address)
        ensures
            r == Address::HeapAddress(alloc_slot(old(self)@.heap) as usize),
            final(self)@ == mem_after_alloc(old(self)@),
    {
        self.heap.malloc()
    }

    /// The value stored at `addr`.
    pub fn value_at(&self, addr: &Address) -> (r: Result<Value, EvalError>)
        ensures
            r == mem_read(self@, *addr),
    {
        match addr {
            Address::HeapAddress(n) => self.heap.get(*n),
            Address::StackAddress(f, id) => self.stack.read_at(*f, id),
        }
    }

    /// Stores `v` at `addr`: a heap slot, or the binding that a stack address
    /// names, which is written in its own frame, as `value_at` reads it, if
    /// it is mutable.
    pub fn write_at(&mut self, addr: &Address, v: Value) -> (r: Result<(), EvalError>)
        ensures
            final(self)@.frames.len() == old(self)@.frames.len(),
            match mem_write(old(self)@, *addr, v) {
                Ok(m) => r is Ok && final(self)@ == m,
                Err(e) => r == Err::<(), EvalError>(e) && final(self)@ == old(self)@,
            },
    {
        match addr {
            Address::HeapAddress(n) => self.heap.set(*n, v),
            Address::StackAddress(f, id) => self.stack.write_at(*f, id, v),
        }
    }

    /// Frees the heap cell that the pointer `add` designates.
    pub fn free(&mut self, add: &Value) -> (r: Result<Value, EvalError>)
        ensures
            match mem_free(old(self)@, *add) {
                Ok(m) => r == Ok::<Value, EvalError>(Value::Unit) && final(self)@ == m,
                Err(e) => r == Err::<Value, EvalError>(e) && final(self)@ == old(self)@,
            },
    {
        match add {
            Value::Pointer(p) => match p.get_address() {
                Address::HeapAddress(n) => {
                    self.heap.free(*n);
                    Ok(Value::Unit)
                },
                Address::StackAddress(_, _) => Err(EvalError::CannotFreeOwnedValue(None)),
            },
            Value::Integer(i) => Err(
                EvalError::TypeMismatch {
                    expression: crate::ast::Expression::Const(ParsedValue::Integer(*i)),
                    expected: Type::Pointer,
                    found: Some(Type::Int),
                },
            ),
            Value::Boolean(b) => Err(
                EvalError::TypeMismatch {
                    expression: crate::ast::Expression::Const(ParsedValue::Boolean(*b)),
                    expected: Type::Pointer,
                    found: Some(Type::Bool),
                },
            ),
            Value::Unit => Err(
                EvalError::TypeMismatch {
                    expression: crate::ast::Expression::Const(ParsedValue::Unit),
                    expected: Type::Pointer,
                    found: Some(Type::Unit),
                },
            ),
        }
    }
}

} // verus!
