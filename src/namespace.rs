//! One lexical scope.

use vstd::prelude::*;

use crate::ast::Expression;
use crate::error::EvalError;
use crate::identifier::Identifier;
use crate::memorycell::{AllocatedCell, MemoryCell, cell_read};
use crate::value::Value;

verus! {

/// The bindings that a sequence of entries denotes; a later entry of a name
/// hides an earlier one.
pub open spec fn entries_map(s: Seq<(Identifier, MemoryCell)>) -> Map<Seq<char>, MemoryCell>
    decreases s.len(),
{
    if s.len() == 0 {
        Map::empty()
    } else {
        entries_map(s.drop_last()).insert(s.last().0@, s.last().1)
    }
}

proof fn lemma_entries_absent(s: Seq<(Identifier, MemoryCell)>, k: Seq<char>)
    requires
        forall|j: int| 0 <= j < s.len() ==> s[j].0@ != k,
    ensures
        !entries_map(s).contains_key(k),
    decreases s.len(),
{
    if s.len() > 0 {
        lemma_entries_absent(s.drop_last(), k);
    }
}

proof fn lemma_entries_last(s: Seq<(Identifier, MemoryCell)>, j: int)
    requires
        0 <= j < s.len(),
        forall|t: int| j < t < s.len() ==> s[t].0@ != s[j].0@,
    ensures
        entries_map(s).contains_key(s[j].0@),
        entries_map(s)[s[j].0@] == s[j].1,
    decreases s.len(),
{
    if j < s.len() - 1 {
        lemma_entries_last(s.drop_last(), j);
    }
}

proof fn lemma_entries_update(s: Seq<(Identifier, MemoryCell)>, j: int, c: MemoryCell)
    requires
        0 <= j < s.len(),
        forall|t: int| j < t < s.len() ==> s[t].0@ != s[j].0@,
    ensures
        entries_map(s.update(j, (s[j].0, c))) == entries_map(s).insert(s[j].0@, c),
    decreases s.len(),
{
    let u = s.update(j, (s[j].0, c));
    if j == s.len() - 1 {
        assert(u.drop_last() =~= s.drop_last());
        assert(entries_map(u) =~= entries_map(s).insert(s[j].0@, c));
    } else {
        assert(u.drop_last() =~= s.drop_last().update(j, (s[j].0, c)));
        lemma_entries_update(s.drop_last(), j, c);
        assert(entries_map(u) =~= entries_map(s).insert(s[j].0@, c));
    }
}

/// One scope: the bindings declared in it, each with its own cell. No name
/// is bound twice.
#[derive(Debug)]
pub struct NameSpace(Vec<(Identifier, MemoryCell)>);

/// No two entries bind the same name.
pub open spec fn keys_unique(s: Seq<(Identifier, MemoryCell)>) -> bool {
    forall|i: int, j: int| 0 <= i < j < s.len() ==> (#[trigger] s[i]).0@ != (#[trigger] s[j]).0@
}

impl View for NameSpace {
    type V = Map<Seq<char>, MemoryCell>;

    closed spec fn view(&self) -> Map<Seq<char>, MemoryCell> {
        entries_map(self.0@)
    }
}

impl NameSpace {
    /// Well-formedness, kept by every operation: each name is bound once.
    #[verifier::type_invariant]
    closed spec fn well_formed(self) -> bool {
        keys_unique(self.0@)
    }

    pub fn new() -> (r: NameSpace)
        ensures
            r@ == Map::<Seq<char>, MemoryCell>::empty(),
    {
        NameSpace(Vec::new())
    }

    /// The index of the entry that binds `id`, if any.
    fn position(&self, id: &Identifier) -> (r: Option<usize>)
        ensures
            match r {
                Some(j) => {
                    &&& j < self.0@.len()
                    &&& self.0@[j as int].0@ == id@
                    &&& forall|t: int| j < t < self.0@.len() ==> self.0@[t].0@ != id@
                },
                None => forall|t: int| 0 <= t < self.0@.len() ==> self.0@[t].0@ != id@,
            },
    {
        let mut i = self.0.len();
        while i > 0
            invariant
                i <= self.0@.len(),
                forall|t: int| i <= t < self.0@.len() ==> self.0@[t].0@ != id@,
            decreases i,
        {
            i = i - 1;
            if self.0[i].0 == *id {
                return Some(i);
            }
        }
        None
    }

    /// Declares `id` in this scope, with an initialized cell.
    pub fn declare(&mut self, id: &Identifier, mutable: bool, value: Value) -> (r: Result<(), EvalError>)
        ensures
            old(self)@.contains_key(id@) ==> r == Err::<(), EvalError>(EvalError::AlreadyDefined(*id))
                && final(self)@ == old(self)@,
            !old(self)@.contains_key(id@) ==> r is Ok && final(self)@ == old(self)@.insert(
                id@,
                MemoryCell::AllocatedCell(AllocatedCell { mutable, value: Some(value) }),
            ),
    {
        match self.position(id) {
            Some(j) => {
                proof {
                    lemma_entries_last(self.0@, j as int);
                }
                Err(EvalError::AlreadyDefined(id.clone()))
            },
            None => {
                proof {
                    lemma_entries_absent(self.0@, id@);
                }
                proof {
                    use_type_invariant(&*self);
                }
                let mut entries = Vec::new();
                std::mem::swap(&mut entries, &mut self.0);
                entries.push((id.clone(), MemoryCell::new_initialized(mutable, value)));
                proof {
                    assert(entries@.drop_last() =~= old(self).0@);
                    assert(keys_unique(entries@));
                }
                self.0 = entries;
                Ok(())
            },
        }
    }

    /// The value bound to `id` in this scope.
    pub fn find(&self, id: &Identifier) -> (r: Result<Value, EvalError>)
        ensures
            self@.contains_key(id@) ==> r == cell_read(self@[id@]),
            !self@.contains_key(id@) ==> r == Err::<Value, EvalError>(EvalError::Undefined(*id)),
    {
        match self.position(id) {
            Some(j) => {
                proof {
                    lemma_entries_last(self.0@, j as int);
                }
                self.0[j].1.get_value()
            },
            None => {
                proof {
                    lemma_entries_absent(self.0@, id@);
                }
                Err(EvalError::Undefined(id.clone()))
            },
        }
    }

    /// Assigns `value` to `id` in this scope, if it is bound here mutably.
    pub fn set(&mut self, id: &Identifier, value: Value) -> (r: Result<(), EvalError>)
        ensures
            !old(self)@.contains_key(id@) ==> r == Err::<(), EvalError>(EvalError::Undefined(*id))
                && final(self)@ == old(self)@,
            old(self)@.contains_key(id@) && old(self)@[id@].is_mutable_cell() ==> r is Ok
                && final(self)@ == old(self)@.insert(
                id@,
                MemoryCell::AllocatedCell(AllocatedCell { mutable: true, value: Some(value) }),
            ),
            old(self)@.contains_key(id@) && !old(self)@[id@].is_mutable_cell() ==> r
                == Err::<(), EvalError>(EvalError::NotMutable(Some(Expression::Identifier(*id))))
                && final(self)@ == old(self)@,
    {
        match self.position(id) {
            Some(j) => {
                proof {
                    lemma_entries_last(self.0@, j as int);
                }
                if self.0[j].1.is_mutable() {
                    proof {
                        use_type_invariant(&*self);
                    }
                    let key = self.0[j].0.clone();
                    let cell = MemoryCell::new_initialized(true, value);
                    proof {
                        lemma_entries_update(self.0@, j as int, cell);
                    }
                    let mut entries = Vec::new();
                    std::mem::swap(&mut entries, &mut self.0);
                    entries.set(j, (key, cell));
                    proof {
                        assert(entries@ == old(self).0@.update(j as int, (old(self).0@[j as int].0, cell)));
                        assert(keys_unique(entries@));
                    }
                    self.0 = entries;
                    Ok(())
                } else {
                    Err(EvalError::NotMutable(Some(Expression::Identifier(id.clone()))))
                }
            },
            None => {
                proof {
                    lemma_entries_absent(self.0@, id@);
                }
                Err(EvalError::Undefined(id.clone()))
            },
        }
    }

    /// Whether `id` is bound in this scope.
    pub fn contains(&self, id: &Identifier) -> (r: bool)
        ensures
            r == self@.contains_key(id@),
    {
        match self.position(id) {
            Some(j) => {
                proof {
                    lemma_entries_last(self.0@, j as int);
                }
                true
            },
            None => {
                proof {
                    lemma_entries_absent(self.0@, id@);
                }
                false
            },
        }
    }
}

} // verus!
