use vstd::prelude::*;
use std::collections::HashMap;

verus! {

broadcast use vstd::std_specs::hash::group_hash_axioms;

/// The correlation table: for each opaque of a request that was written and
/// not yet answered, the handle that completes it.
pub struct PendingTable<H> {
    entries: HashMap<usize, H>,
}

impl<H> View for PendingTable<H> {
    type V = Map<usize, H>;

    closed spec fn view(&self) -> Map<usize, H> {
        self.entries@
    }
}

impl<H> PendingTable<H> {
    /// An empty table.
    pub fn new() -> (r: PendingTable<H>)
        ensures
            r@ == Map::<usize, H>::empty(),
    {
        PendingTable { entries: HashMap::new() }
    }

    /// Records `handle` as the one that completes the request `opaque`; a handle
    /// that was recorded for it before is handed back.
    pub fn register(&mut self, opaque: usize, handle: H) -> (r: Option<H>)
        ensures
            final(self)@ == old(self)@.insert(opaque, handle),
            match r {
                Some(h) => old(self)@.contains_key(opaque) && h == old(self)@[opaque],
                None => !old(self)@.contains_key(opaque),
            },
    {
        self.entries.insert(opaque, handle)
    }

    /// Removes and returns the handle of the request `opaque`, if it is pending.
    pub fn take(&mut self, opaque: usize) -> (r: Option<H>)
        ensures
            final(self)@ == old(self)@.remove(opaque),
            match r {
                Some(h) => old(self)@.contains_key(opaque) && h == old(self)@[opaque],
                None => !old(self)@.contains_key(opaque),
            },
    {
        self.entries.remove(&opaque)
    }

    /// Whether the request `opaque` is pending.
    pub fn contains(&self, opaque: usize) -> (r: bool)
        ensures
            r == self@.contains_key(opaque),
    {
        self.entries.contains_key(&opaque)
    }

    /// The number of pending requests.
    pub fn len(&self) -> (r: usize)
        ensures
            r == self@.len(),
    {
        self.entries.len()
    }

    /// Empties the table and returns everything that was pending, so that each
    /// request can be failed when its connection is torn down.
    pub fn take_all(&mut self) -> (r: HashMap<usize, H>)
        ensures
            r@ == old(self)@,
            final(self)@ == Map::<usize, H>::empty(),
    {
        let mut all: HashMap<usize, H> = HashMap::new();
        std::mem::swap(&mut all, &mut self.entries);
        all
    }
}

/// Responses are delivered by opaque alone: with two requests pending under
/// distinct opaques, taking the later one first and then the earlier one yields
/// each request's own handle, whatever the order of arrival.
pub proof fn lemma_correlation_by_opaque<H>(m: Map<usize, H>, o1: usize, h1: H, o2: usize, h2: H)
    requires
        o1 != o2,
    ensures
        ({
            let pending = m.insert(o1, h1).insert(o2, h2);
            &&& pending.contains_key(o2) && pending[o2] == h2
            &&& pending.remove(o2).contains_key(o1) && pending.remove(o2)[o1] == h1
            &&& pending.contains_key(o1) && pending[o1] == h1
            &&& pending.remove(o1).contains_key(o2) && pending.remove(o1)[o2] == h2
        }),
{
}

} // verus!
