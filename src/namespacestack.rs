//! The stack of lexical scopes: shadowing, scope entry and exit, and stack
//! addresses.

use vstd::prelude::*;

use crate::ast::Expression;
use crate::error::EvalError;
use crate::identifier::Identifier;
use crate::memory::Address;
use crate::memorycell::{AllocatedCell, MemoryCell, cell_read};
use crate::namespace::NameSpace;
use crate::value::Value;

verus! {

/// The scopes of the stack, outermost first.
pub type Frames = Seq<Map<Seq<char>, MemoryCell>>;

/// The highest index below `n` of a frame that binds `k`.
pub open spec fn innermost_below(frames: Frames, k: Seq<char>, n: nat) -> Option<nat>
    decreases n,
{
    if n == 0 {
        None
    } else if frames[n - 1].contains_key(k) {
        Some((n - 1) as nat)
    } else {
        innermost_below(frames, k, (n - 1) as nat)
    }
}

/// The innermost frame that binds `k`.
pub open spec fn frame_of(frames: Frames, k: Seq<char>) -> Option<nat> {
    innermost_below(frames, k, frames.len())
}

/// The value of `id`, searched from the innermost scope outwards.
pub open spec fn stack_find(frames: Frames, id: Identifier) -> Result<Value, EvalError> {
    match frame_of(frames, id@) {
        Some(f) => cell_read(frames[f as int][id@]),
        None => Err(EvalError::Undefined(id)),
    }
}

/// Assignment of `v` to `id`: it goes to the innermost scope that binds
/// `id`, and fails there if that binding is immutable.
pub open spec fn stack_set(frames: Frames, id: Identifier, v: Value) -> Result<Frames, EvalError> {
    match frame_of(frames, id@) {
        Some(f) => if frames[f as int][id@].is_mutable_cell() {
            Ok(
                frames.update(
                    f as int,
                    frames[f as int].insert(
                        id@,
                        MemoryCell::AllocatedCell(AllocatedCell { mutable: true, value: Some(v) }),
                    ),
                ),
            )
        } else {
            Err(EvalError::NotMutable(Some(Expression::Identifier(id))))
        },
        None => Err(EvalError::Undefined(id)),
    }
}

/// Declaration of `id` in the innermost scope.
pub open spec fn stack_declare(frames: Frames, id: Identifier, mutable: bool, v: Value) -> Result<
    Frames,
    EvalError,
> {
    let top = frames.len() - 1;
    if frames[top].contains_key(id@) {
        Err(EvalError::AlreadyDefined(id))
    } else {
        Ok(
            frames.update(
                top,
                frames[top].insert(
                    id@,
                    MemoryCell::AllocatedCell(AllocatedCell { mutable, value: Some(v) }),
                ),
            ),
        )
    }
}

/// The address of the binding that `id` denotes: its frame and its name.
pub open spec fn stack_address(frames: Frames, id: Identifier) -> Result<Address, EvalError> {
    match frame_of(frames, id@) {
        Some(f) => Ok(Address::StackAddress(f as usize, id)),
        None => Err(EvalError::Undefined(id)),
    }
}

/// Whether frame `f` exists and binds `k`.
pub open spec fn binds_at(frames: Frames, f: int, k: Seq<char>) -> bool {
    0 <= f < frames.len() && frames[f].contains_key(k)
}

/// What reading the binding `k` of frame `f` gives, without searching other
/// frames.
pub open spec fn stack_read_at(frames: Frames, f: int, k: Seq<char>) -> Result<Value, EvalError> {
    if binds_at(frames, f, k) {
        cell_read(frames[f][k])
    } else {
        Err(EvalError::NonAllocatedCell(None))
    }
}

/// What writing `v` into the binding `k` of frame `f` gives.
pub open spec fn stack_write_at(frames: Frames, f: int, k: Seq<char>, v: Value) -> Result<
    Frames,
    EvalError,
> {
    if binds_at(frames, f, k) {
        if frames[f][k].is_mutable_cell() {
            Ok(
                frames.update(
                    f,
                    frames[f].insert(
                        k,
                        MemoryCell::AllocatedCell(AllocatedCell { mutable: true, value: Some(v) }),
                    ),
                ),
            )
        } else {
            Err(EvalError::NotMutable(None))
        }
    } else {
        Err(EvalError::NonAllocatedCell(None))
    }
}

/// The frame found is one that binds `k`.
pub proof fn lemma_frame_of(frames: Frames, k: Seq<char>)
    ensures
        frame_of(frames, k) matches Some(f) ==> f < frames.len() && frames[f as int].contains_key(k),
{
    lemma_innermost_below(frames, k, frames.len());
}

/// No frame inside the one found binds `k`.
pub proof fn lemma_frame_of_is_innermost(frames: Frames, k: Seq<char>, t: int)
    requires
        frame_of(frames, k) matches Some(f) && f < t < frames.len(),
    ensures
        !frames[t].contains_key(k),
{
    lemma_innermost_above(frames, k, frames.len(), t);
}

proof fn lemma_innermost_above(frames: Frames, k: Seq<char>, n: nat, t: int)
    requires
        innermost_below(frames, k, n) matches Some(f) && f < t < n,
    ensures
        !frames[t].contains_key(k),
    decreases n,
{
    if n > 0 && t < n - 1 {
        lemma_innermost_above(frames, k, (n - 1) as nat, t);
    }
}

proof fn lemma_innermost_below(frames: Frames, k: Seq<char>, n: nat)
    ensures
        innermost_below(frames, k, n) matches Some(f) ==> f < n && frames[f as int].contains_key(k),
    decreases n,
{
    if n > 0 {
        lemma_innermost_below(frames, k, (n - 1) as nat);
    }
}

proof fn lemma_innermost_none(frames: Frames, k: Seq<char>, n: nat)
    requires
        n <= frames.len(),
        forall|t: int| 0 <= t < n ==> !frames[t].contains_key(k),
    ensures
        innermost_below(frames, k, n) is None,
    decreases n,
{
    if n > 0 {
        lemma_innermost_none(frames, k, (n - 1) as nat);
    }
}

pub proof fn lemma_innermost_some(frames: Frames, k: Seq<char>, n: nat, i: nat)
    requires
        i < n <= frames.len(),
        frames[i as int].contains_key(k),
        forall|t: int| i < t < n ==> !frames[t].contains_key(k),
    ensures
        innermost_below(frames, k, n) == Some(i),
    decreases n,
{
    if n > i + 1 {
        lemma_innermost_some(frames, k, (n - 1) as nat, i);
    }
}

/// The stack of scopes, outermost first.
#[derive(Debug)]
pub struct NameSpaceStack {
    stack: Vec<NameSpace>,
}

impl View for NameSpaceStack {
    type V = Frames;

    closed spec fn view(&self) -> Frames {
        self.stack@.map_values(|ns: NameSpace| ns@)
    }
}

impl NameSpaceStack {
    pub fn new() -> (r: NameSpaceStack)
        ensures
            r@ == Seq::<Map<Seq<char>, MemoryCell>>::empty(),
    {
        NameSpaceStack { stack: Vec::new() }
    }

    /// The number of scopes.
    pub fn len(&self) -> (r: usize)
        ensures
            r == self@.len(),
    {
        self.stack.len()
    }

    /// Enters `ns` as the new innermost scope.
    pub fn push(&mut self, ns: NameSpace)
        ensures
            final(self)@ == old(self)@.push(ns@),
    {
        self.stack.push(ns);
        proof {
            assert(self@ =~= old(self)@.push(ns@));
        }
    }

    /// Leaves the innermost scope and hands it back.
    pub fn pop(&mut self) -> (r: Option<NameSpace>)
        ensures
            old(self)@.len() == 0 ==> r is None && final(self)@ == old(self)@,
            old(self)@.len() > 0 ==> r is Some && r->0@ == old(self)@.last() && final(self)@
                == old(self)@.drop_last(),
    {
        let r = self.stack.pop();
        proof {
            if old(self)@.len() > 0 {
                assert(self@ =~= old(self)@.drop_last());
            }
        }
        r
    }

    /// Declares `id` in the innermost scope.
    pub fn declare(&mut self, id: &Identifier, mutable: bool, value: Value) -> (r: Result<(), EvalError>)
        requires
            old(self)@.len() > 0,
        ensures
            match stack_declare(old(self)@, *id, mutable, value) {
                Ok(f) => r is Ok && final(self)@ == f,
                Err(e) => r == Err::<(), EvalError>(e) && final(self)@ == old(self)@,
            },
    {
        let top = self.stack.len() - 1;
        let mut ns = NameSpace::new();
        std::mem::swap(&mut ns, &mut self.stack[top]);
        let r = ns.declare(id, mutable, value);
        self.stack.set(top, ns);
        proof {
            assert(self@ =~= old(self)@.update(top as int, ns@));
        }
        r
    }

    /// The value of `id`, searched from the innermost scope outwards.
    pub fn find(&self, id: &Identifier) -> (r: Result<Value, EvalError>)
        ensures
            r == stack_find(self@, *id),
    {
        let mut i = self.stack.len();
        while i > 0
            invariant
                i <= self.stack@.len(),
                forall|t: int| i <= t < self@.len() ==> !self@[t].contains_key(id@),
            decreases i,
        {
            i = i - 1;
            if self.stack[i].contains(id) {
                proof {
                    lemma_innermost_some(self@, id@, self@.len(), i as nat);
                }
                return self.stack[i].find(id);
            }
        }
        proof {
            lemma_innermost_none(self@, id@, self@.len());
        }
        Err(EvalError::Undefined(id.clone()))
    }

    /// Assigns `value` to `id` in the innermost scope that binds it.
    pub fn set(&mut self, id: &Identifier, value: Value) -> (r: Result<(), EvalError>)
        ensures
            final(self)@.len() == old(self)@.len(),
            match stack_set(old(self)@, *id, value) {
                Ok(f) => r is Ok && final(self)@ == f,
                Err(e) => r == Err::<(), EvalError>(e) && final(self)@ == old(self)@,
            },
    {
        let mut i = self.stack.len();
        while i > 0
            invariant
                i <= self.stack@.len(),
                self@ == old(self)@,
                forall|t: int| i <= t < self@.len() ==> !self@[t].contains_key(id@),
            decreases i,
        {
            i = i - 1;
            if self.stack[i].contains(id) {
                proof {
                    lemma_innermost_some(self@, id@, self@.len(), i as nat);
                }
                let mut ns = NameSpace::new();
                std::mem::swap(&mut ns, &mut self.stack[i]);
                let r = ns.set(id, value);
                self.stack.set(i, ns);
                proof {
                    assert(self@ =~= old(self)@.update(i as int, ns@));
                }
                return r;
            }
        }
        proof {
            lemma_innermost_none(self@, id@, self@.len());
        }
        Err(EvalError::Undefined(id.clone()))
    }

    /// The address of the binding that `id` denotes: the innermost frame that
    /// binds it, and the name.
    pub fn get_address(&self, id: &Identifier) -> (r: Result<Address, EvalError>)
        ensures
            r == stack_address(self@, *id),
    {
        let mut i = self.stack.len();
        while i > 0
            invariant
                i <= self.stack@.len(),
                forall|t: int| i <= t < self@.len() ==> !self@[t].contains_key(id@),
            decreases i,
        {
            i = i - 1;
            if self.stack[i].contains(id) {
                proof {
                    lemma_innermost_some(self@, id@, self@.len(), i as nat);
                }
                return Ok(Address::StackAddress(i, id.clone()));
            }
        }
        proof {
            lemma_innermost_none(self@, id@, self@.len());
        }
        Err(EvalError::Undefined(id.clone()))
    }

    /// What reading the binding `id` of frame `frame` gives.
    pub fn read_at(&self, frame: usize, id: &Identifier) -> (r: Result<Value, EvalError>)
        ensures
            r == stack_read_at(self@, frame as int, id@),
    {
        if frame < self.stack.len() && self.stack[frame].contains(id) {
            self.stack[frame].find(id)
        } else {
            Err(EvalError::NonAllocatedCell(None))
        }
    }

    /// Writes `value` into the binding `id` of frame `frame`, if it is
    /// mutable.
    pub fn write_at(&mut self, frame: usize, id: &Identifier, value: Value) -> (r: Result<(), EvalError>)
        ensures
            final(self)@.len() == old(self)@.len(),
            match stack_write_at(old(self)@, frame as int, id@, value) {
                Ok(f) => r is Ok && final(self)@ == f,
                Err(e) => r == Err::<(), EvalError>(e) && final(self)@ == old(self)@,
            },
    {
        if frame < self.stack.len() && self.stack[frame].contains(id) {
            let mut ns = NameSpace::new();
            std::mem::swap(&mut ns, &mut self.stack[frame]);
            let r = ns.set(id, value);
            self.stack.set(frame, ns);
            proof {
                assert(self@ =~= old(self)@.update(frame as int, ns@));
            }
            match r {
                Ok(()) => Ok(()),
                Err(_) => Err(EvalError::NotMutable(None)),
            }
        } else {
            Err(EvalError::NonAllocatedCell(None))
        }
    }
}

} // verus!
