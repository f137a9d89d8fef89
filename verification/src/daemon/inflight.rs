//! The identifiers of what is under way.

use std::collections::HashSet;

use vstd::prelude::*;

verus! {

broadcast use vstd::std_specs::hash::group_hash_axioms;

/// A set of identifiers.
#[derive(Debug)]
pub struct Inflight {
    ids: HashSet<u128>,
}

impl Inflight {
    /// The identifiers.
    pub closed spec fn view(&self) -> Set<u128> {
        self.ids@
    }

    /// Nothing is under way.
    pub fn new() -> (inflight: Inflight)
        ensures
            inflight@ == Set::<u128>::empty(),
    {
        Inflight { ids: HashSet::new() }
    }

    /// Whether nothing is under way.
    pub fn is_empty(&self) -> (r: bool)
        ensures
            r == (self@ == Set::<u128>::empty()),
    {
        self.ids.is_empty()
    }

    /// How much is under way.
    pub fn count(&self) -> (n: usize)
        ensures
            n == self@.len(),
    {
        self.ids.len()
    }

    /// Whether an identifier is under way.
    pub fn contains(&self, id: u128) -> (r: bool)
        ensures
            r == self@.contains(id),
    {
        self.ids.contains(&id)
    }

    /// Add an identifier. Tells whether it is new.
    pub fn insert(&mut self, id: u128) -> (fresh: bool)
        ensures
            fresh == !old(self)@.contains(id),
            final(self)@ == old(self)@.insert(id),
    {
        self.ids.insert(id)
    }

    /// Take an identifier out.
    pub fn remove(&mut self, id: u128)
        ensures
            final(self)@ == old(self)@.remove(id),
    {
        self.ids.remove(&id);
    }
}

} // verus!
