//! Cells: the storage behind a binding or a heap slot.

use vstd::prelude::*;

use crate::error::EvalError;
use crate::value::Value;

verus! {

/// A storage location that holds a value.
#[derive(Debug)]
pub struct AllocatedCell {
    pub mutable: bool,
    pub value: Option<Value>,
}

/// One slot of storage: free, or allocated with a mutability flag and a
/// value that may not have been written yet.
#[derive(Debug)]
pub enum MemoryCell {
    NotAllocated,
    AllocatedCell(AllocatedCell),
}

/// What reading `c` gives.
pub open spec fn cell_read(c: MemoryCell) -> Result<Value, EvalError> {
    match c {
        MemoryCell::NotAllocated => Err(EvalError::NonAllocatedCell(None)),
        MemoryCell::AllocatedCell(ac) => match ac.value {
            None => Err(EvalError::NonInitializedValue(None)),
            Some(v) => Ok(v),
        },
    }
}

/// What writing `v` into `c` gives: the new cell, or why it cannot be written.
pub open spec fn cell_write(c: MemoryCell, v: Value) -> Result<MemoryCell, EvalError> {
    match c {
        MemoryCell::NotAllocated => Err(EvalError::NonAllocatedCell(None)),
        MemoryCell::AllocatedCell(ac) => if ac.mutable {
            Ok(MemoryCell::AllocatedCell(AllocatedCell { mutable: true, value: Some(v) }))
        } else {
            Err(EvalError::NotMutable(None))
        },
    }
}

/// A freshly allocated heap cell: mutable, not yet written.
pub open spec fn fresh_cell() -> MemoryCell {
    MemoryCell::AllocatedCell(AllocatedCell { mutable: true, value: None })
}

impl MemoryCell {
    /// An allocated cell that may be written.
    pub open spec fn is_mutable_cell(self) -> bool {
        self matches MemoryCell::AllocatedCell(ac) && ac.mutable
    }

    pub fn new_initialized(mutable: bool, value: Value) -> (r: MemoryCell)
        ensures
            r == MemoryCell::AllocatedCell(AllocatedCell { mutable, value: Some(value) }),
    {
        MemoryCell::AllocatedCell(AllocatedCell { mutable, value: Some(value) })
    }

    pub fn new_uninitialized() -> (r: MemoryCell)
        ensures
            r == fresh_cell(),
    {
        MemoryCell::AllocatedCell(AllocatedCell { mutable: true, value: None })
    }

    /// Whether the cell is allocated and may be written.
    pub fn is_mutable(&self) -> (r: bool)
        ensures
            r == self.is_mutable_cell(),
    {
        match self {
            MemoryCell::NotAllocated => false,
            MemoryCell::AllocatedCell(ac) => ac.is_mutable(),
        }
    }

    pub fn get_value(&self) -> (r: Result<Value, EvalError>)
        ensures
            r == cell_read(*self),
    {
        match self {
            MemoryCell::NotAllocated => Err(EvalError::NonAllocatedCell(None)),
            MemoryCell::AllocatedCell(ac) => match &ac.value {
                None => Err(EvalError::NonInitializedValue(None)),
                Some(v) => Ok(v.clone()),
            },
        }
    }

    pub fn set_value(&mut self, v: Value) -> (r: Result<(), EvalError>)
        ensures
            match cell_write(*old(self), v) {
                Ok(c) => r is Ok && *final(self) == c,
                Err(e) => r == Err::<(), EvalError>(e) && *final(self) == *old(self),
            },
    {
        match self {
            MemoryCell::NotAllocated => Err(EvalError::NonAllocatedCell(None)),
            MemoryCell::AllocatedCell(ac) => {
                if !ac.is_mutable() {
                    return Err(EvalError::NotMutable(None));
                }
                ac.value = Some(v);
                Ok(())
            },
        }
    }

    pub fn is_allocated(&self) -> (r: bool)
        ensures
            r == (*self is AllocatedCell),
    {
        match self {
            MemoryCell::NotAllocated => false,
            MemoryCell::AllocatedCell(_) => true,
        }
    }
}

impl AllocatedCell {
    pub fn is_mutable(&self) -> (r: bool)
        ensures
            r == self.mutable,
    {
        self.mutable
    }
}

} // verus!
