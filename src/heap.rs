//! The heap: cells addressed by slot, allocated first fit and freed
//! explicitly.

use vstd::prelude::*;

use crate::error::EvalError;
use crate::memory::Address;
use crate::memorycell::{MemoryCell, cell_read, cell_write, fresh_cell};
use crate::value::Value;

verus! {

/// The lowest index below `n` whose slot of `h` is free.
pub open spec fn lowest_free_below(h: Seq<MemoryCell>, n: nat) -> Option<nat>
    decreases n,
{
    if n == 0 {
        None
    } else {
        match lowest_free_below(h, (n - 1) as nat) {
            Some(i) => Some(i),
            None => if h[n - 1] is NotAllocated {
                Some((n - 1) as nat)
            } else {
                None
            },
        }
    }
}

/// The slot that the next allocation takes: the lowest free one, else a new
/// slot at the end.
pub open spec fn alloc_slot(h: Seq<MemoryCell>) -> nat {
    match lowest_free_below(h, h.len()) {
        Some(i) => i,
        None => h.len(),
    }
}

/// The heap after an allocation.
pub open spec fn heap_after_alloc(h: Seq<MemoryCell>) -> Seq<MemoryCell> {
    match lowest_free_below(h, h.len()) {
        Some(i) => h.update(i as int, fresh_cell()),
        None => h.push(fresh_cell()),
    }
}

/// What reading slot `i` of `h` gives.
pub open spec fn heap_read(h: Seq<MemoryCell>, i: int) -> Result<Value, EvalError> {
    if 0 <= i < h.len() {
        cell_read(h[i])
    } else {
        Err(EvalError::NonAllocatedCell(None))
    }
}

/// What writing `v` into slot `i` of `h` gives: the new heap, or why the
/// slot cannot be written.
pub open spec fn heap_write(h: Seq<MemoryCell>, i: int, v: Value) -> Result<Seq<MemoryCell>, EvalError> {
    if 0 <= i < h.len() {
        match cell_write(h[i], v) {
            Ok(c) => Ok(h.update(i, c)),
            Err(e) => Err(e),
        }
    } else {
        Err(EvalError::NonAllocatedCell(None))
    }
}

/// The heap after freeing slot `i`; a slot beyond the end is already free.
pub open spec fn heap_after_free(h: Seq<MemoryCell>, i: int) -> Seq<MemoryCell> {
    if 0 <= i < h.len() {
        h.update(i, MemoryCell::NotAllocated)
    } else {
        h
    }
}

/// The slot that an allocation takes is in the heap afterwards, and holds a
/// fresh cell.
pub proof fn lemma_alloc_slot(h: Seq<MemoryCell>)
    ensures
        alloc_slot(h) <= h.len(),
        alloc_slot(h) < heap_after_alloc(h).len(),
        heap_after_alloc(h)[alloc_slot(h) as int] == fresh_cell(),
{
    lemma_lowest_free_below(h, h.len());
}

proof fn lemma_lowest_free_below(h: Seq<MemoryCell>, n: nat)
    ensures
        lowest_free_below(h, n) matches Some(i) ==> i < n,
    decreases n,
{
    if n > 0 {
        lemma_lowest_free_below(h, (n - 1) as nat);
    }
}

pub proof fn lemma_lowest_free_none(h: Seq<MemoryCell>, n: nat)
    requires
        n <= h.len(),
        forall|j: int| 0 <= j < n ==> h[j] is AllocatedCell,
    ensures
        lowest_free_below(h, n) is None,
    decreases n,
{
    if n > 0 {
        lemma_lowest_free_none(h, (n - 1) as nat);
    }
}

pub proof fn lemma_lowest_free_some(h: Seq<MemoryCell>, n: nat, i: nat)
    requires
        i < n <= h.len(),
        h[i as int] is NotAllocated,
        forall|j: int| 0 <= j < i ==> h[j] is AllocatedCell,
    ensures
        lowest_free_below(h, n) == Some(i),
    decreases n,
{
    if n == i + 1 {
        lemma_lowest_free_none(h, i);
    } else {
        lemma_lowest_free_some(h, (n - 1) as nat, i);
    }
}

/// The heap: a growable sequence of cells addressed by index. Slots are never
/// removed, only marked free and reused.
#[derive(Debug)]
pub struct Heap(Vec<MemoryCell>);

impl View for Heap {
    type V = Seq<MemoryCell>;

    closed spec fn view(&self) -> Seq<MemoryCell> {
        self.0@
    }
}

impl Heap {
    pub fn new() -> (r: Heap)
        ensures
            r@ == Seq::<MemoryCell>::empty(),
    {
        Heap(Vec::new())
    }

    /// Allocates an uninitialized mutable cell in the lowest free slot, or in
    /// a new slot at the end when none is free.
    pub fn malloc(&mut self) -> (r: Address)
        ensures
            r == Address::HeapAddress(alloc_slot(old(self)@) as usize),
            final(self)@ == heap_after_alloc(old(self)@),
    {
        let n = self.0.len();
        let mut addr: usize = 0;
        while addr < n
            invariant
                n == self.0@.len(),
                addr <= n,
                self@ == old(self)@,
                forall|j: int| 0 <= j < addr ==> self.0@[j] is AllocatedCell,
            decreases n - addr,
        {
            if !self.0[addr].is_allocated() {
                proof {
                    lemma_lowest_free_some(self.0@, n as nat, addr as nat);
                }
                self.0.set(addr, MemoryCell::new_uninitialized());
                return Address::HeapAddress(addr);
            }
            addr = addr + 1;
        }
        proof {
            lemma_lowest_free_none(self.0@, n as nat);
        }
        self.0.push(MemoryCell::new_uninitialized());
        Address::HeapAddress(self.0.len() - 1)
    }

    /// Marks slot `a` free, whatever it held; a slot beyond the end is
    /// already free.
    pub fn free(&mut self, a: usize)
        ensures
            final(self)@ == heap_after_free(old(self)@, a as int),
    {
        if a < self.0.len() {
            self.0.set(a, MemoryCell::NotAllocated);
        }
    }

    pub fn get(&self, index: usize) -> (r: Result<Value, EvalError>)
        ensures
            r == heap_read(self@, index as int),
    {
        if self.0.len() <= index {
            return Err(EvalError::NonAllocatedCell(None));
        }
        if !self.0[index].is_allocated() {
            return Err(EvalError::NonAllocatedCell(None));
        }
        self.0[index].get_value()
    }

    pub fn set(&mut self, index: usize, value: Value) -> (r: Result<(), EvalError>)
        ensures
            match heap_write(old(self)@, index as int, value) {
                Ok(h) => r is Ok && final(self)@ == h,
                Err(e) => r == Err::<(), EvalError>(e) && final(self)@ == old(self)@,
            },
    {
        if self.0.len() <= index {
            return Err(EvalError::NonAllocatedCell(None));
        }
        let mut cell = MemoryCell::NotAllocated;
        std::mem::swap(&mut cell, &mut self.0[index]);
        let res = cell.set_value(value);
        self.0.set(index, cell);
        proof {
            assert(self.0@ =~= old(self)@.update(index as int, self.0@[index as int]));
        }
        res
    }
}

} // verus!
