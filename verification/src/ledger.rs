//! The buffers that were handed to the foreign side and are still owed back.
//! Each is known by its address. A buffer is released once: releasing an
//! address that is not owed shows a caller that released twice, or released
//! what it was never given.

use std::collections::HashSet;
use vstd::prelude::*;

verus! {

broadcast use vstd::std_specs::hash::group_hash_axioms;

/// The addresses of the buffers that are owed back.
pub struct StringLedger {
    owed: HashSet<usize>,
}

impl View for StringLedger {
    type V = Set<usize>;

    closed spec fn view(&self) -> Set<usize> {
        self.owed@
    }
}

impl StringLedger {
    /// A ledger to which nothing is owed.
    pub fn new() -> (ledger: StringLedger)
        ensures
            ledger@ == Set::<usize>::empty(),
    {
        StringLedger { owed: HashSet::new() }
    }

    /// Whether the buffer at this address is owed back.
    pub fn is_owed(&self, address: usize) -> (owed: bool)
        ensures
            owed == self@.contains(address),
    {
        self.owed.contains(&address)
    }

    /// Enters a buffer that was handed out. `false` where the address was
    /// entered before and not released since.
    pub fn issue(&mut self, address: usize) -> (fresh: bool)
        ensures
            fresh == !old(self)@.contains(address),
            final(self)@ == old(self)@.insert(address),
    {
        self.owed.insert(address)
    }

    /// Strikes a buffer out. `false`, and nothing changes, where the address
    /// is not owed.
    pub fn release(&mut self, address: usize) -> (owed: bool)
        ensures
            owed == old(self)@.contains(address),
            final(self)@ == old(self)@.remove(address),
    {
        self.owed.remove(&address)
    }
}

/// Takes back the buffer of a string that was handed out.
#[allow(non_snake_case)]
pub fn Value_FreeString(ledger: &mut StringLedger, c_str: usize)
    requires
        old(ledger)@.contains(c_str),
    ensures
        final(ledger)@ == old(ledger)@.remove(c_str),
        !final(ledger)@.contains(c_str),
{
    ledger.release(c_str);
}

/// A buffer that was issued is owed until it is released, and from then on
/// it is not: a second release finds nothing.
pub proof fn law_release_once(owed: Set<usize>, address: usize)
    ensures
        owed.insert(address).contains(address),
        !owed.insert(address).remove(address).contains(address),
        !owed.contains(address) ==> owed.insert(address).remove(address) == owed,
        owed.remove(address).remove(address) == owed.remove(address),
{
}

} // verus!
