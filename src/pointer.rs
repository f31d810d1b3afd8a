//! Pointers: values that designate a location.

use vstd::prelude::*;

use crate::memory::{Address, same_address};

verus! {

/// A reference to one storage location, obtained with `new` or `&x`. Two
/// pointers are equal when their addresses are.
#[derive(Debug)]
pub struct Pointer {
    address: Address,
}

/// The pointer to `a`.
pub closed spec fn pointer_to(a: Address) -> Pointer {
    Pointer { address: a }
}

pub broadcast proof fn lemma_addr_of_pointer_to(a: Address)
    ensures
        #[trigger] pointer_to(a).addr() == a,
{
}

pub broadcast proof fn lemma_pointer_to_addr(p: Pointer)
    ensures
        pointer_to(#[trigger] p.addr()) == p,
{
}

pub broadcast group group_pointer {
    lemma_addr_of_pointer_to,
    lemma_pointer_to_addr,
}

impl Pointer {
    /// The address this pointer designates.
    pub closed spec fn addr(self) -> Address {
        self.address
    }

    pub fn new(add: Address) -> (r: Pointer)
        ensures
            r == pointer_to(add),
    {
        Pointer { address: add }
    }

    pub fn get_address(&self) -> (r: &Address)
        ensures
            *r == self.addr(),
    {
        &self.address
    }
}

impl Clone for Pointer {
    fn clone(&self) -> (r: Pointer)
        ensures
            r == *self,
    {
        Pointer { address: self.address.clone() }
    }
}

} // verus!

verus! {

impl PartialEq for Pointer {
    fn eq(&self, other: &Pointer) -> (r: bool)
        ensures
            r == same_address(self.addr(), other.addr()),
    {
        self.address == other.address
    }
}

impl vstd::std_specs::cmp::PartialEqSpecImpl for Pointer {
    open spec fn obeys_eq_spec() -> bool {
        true
    }

    open spec fn eq_spec(&self, other: &Pointer) -> bool {
        same_address(self.addr(), other.addr())
    }
}

} // verus!
