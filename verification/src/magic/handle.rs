//! Handles to values that the engine owns.

use std::marker::PhantomData;
use std::rc::Rc;
use vstd::prelude::*;

verus! {

/// A borrowed handle to a value that the engine owns.
///
/// A handle is an identity and nothing more: the address of the slot in which
/// the engine keeps the value. It is valid for as long as the scope `'s` that
/// produced it and on the thread of that scope only, and dropping it releases
/// nothing.
#[derive(Clone, Copy, Debug)]
pub struct Local<'s> {
    addr: usize,
    /// Ties the handle to its scope, and keeps it from other threads as a
    /// borrowed `Rc` is kept.
    scope: PhantomData<&'s Rc<()>>,
}

impl<'s> View for Local<'s> {
    type V = usize;

    /// The identity of the handle.
    closed spec fn view(&self) -> usize {
        self.addr
    }
}

impl<'s> Local<'s> {
    /// Takes the address of an engine slot for a handle of scope `'s`.
    ///
    /// Nothing here can tell whether `addr` is a live slot of that scope:
    /// the caller vouches for it.
    pub fn from_raw(addr: usize) -> (handle: Self)
        ensures
            handle@ == addr,
    {
        Local { addr, scope: PhantomData }
    }

    /// The address of the engine slot.
    pub fn as_raw(&self) -> (addr: usize)
        ensures
            addr == self@,
    {
        self.addr
    }

    /// A handle is its address and nothing else: handles of equal address
    /// are the same handle.
    pub proof fn lemma_same_address_same_handle(self, other: Self)
        ensures
            self@ == other@ <==> self == other,
    {
    }
}

impl<'s> PartialEq for Local<'s> {
    /// Two handles are equal when they name the same slot.
    fn eq(&self, other: &Self) -> (same: bool) {
        self.addr == other.addr
    }
}

impl<'s> Eq for Local<'s> {

}

impl<'s> vstd::std_specs::cmp::PartialEqSpecImpl for Local<'s> {
    open spec fn obeys_eq_spec() -> bool {
        true
    }

    open spec fn eq_spec(&self, other: &Self) -> bool {
        self@ == other@
    }
}

} // verus!
