use std::collections::HashMap;
use vstd::prelude::*;

verus! {

broadcast use vstd::std_specs::hash::group_hash_axioms;

/// The requests that await a reply: each correlation id maps to the one
/// completion slot that its reply is handed to.
pub struct PendingRequests<S> {
    requests: HashMap<u64, S>,
}

impl<S> View for PendingRequests<S> {
    type V = Map<u64, S>;

    closed spec fn view(&self) -> Map<u64, S> {
        self.requests@
    }
}

impl<S> PendingRequests<S> {
    pub fn new() -> (r: Self)
        ensures
            r@ == Map::<u64, S>::empty(),
    {
        PendingRequests { requests: HashMap::new() }
    }

    /// Registers the slot of a request; a slot already under `id` is handed
    /// back, replaced.
    pub fn insert(&mut self, id: u64, slot: S) -> (r: Option<S>)
        ensures
            final(self)@ == old(self)@.insert(id, slot),
            r == (if old(self)@.contains_key(id) { Some(old(self)@[id]) } else { None }),
    {
        self.requests.insert(id, slot)
    }

    /// Takes out the slot that a reply with this id completes; `None`, and
    /// no change, when no request waits under `id`.
    pub fn respond(&mut self, id: u64) -> (r: Option<S>)
        ensures
            final(self)@ == old(self)@.remove(id),
            r == (if old(self)@.contains_key(id) { Some(old(self)@[id]) } else { None }),
    {
        self.requests.remove(&id)
    }

    /// Drops every slot: each waiting caller sees its channel closed.
    pub fn clear(&mut self)
        ensures
            final(self)@ == Map::<u64, S>::empty(),
    {
        self.requests.clear();
    }

    pub fn contains(&self, id: u64) -> (r: bool)
        ensures
            r == self@.contains_key(id),
    {
        self.requests.contains_key(&id)
    }

    pub fn len(&self) -> (r: usize)
        ensures
            r == self@.len(),
    {
        self.requests.len()
    }
}

/// A slot registered once under a fresh id is handed out by the first reply
/// with that id; a second reply with the same id finds nothing, and the other
/// waiting requests are left as they were.
pub proof fn lemma_respond_exactly_once<S>(table: Map<u64, S>, id: u64, slot: S)
    requires
        !table.contains_key(id),
    ensures
        table.insert(id, slot).contains_key(id),
        table.insert(id, slot)[id] == slot,
        !table.insert(id, slot).remove(id).contains_key(id),
        table.insert(id, slot).remove(id) == table.insert(id, slot).remove(id).remove(id),
        table.insert(id, slot).remove(id) == table,
{
    assert(table.insert(id, slot).remove(id) =~= table);
    assert(table.insert(id, slot).remove(id).remove(id) =~= table);
}

/// After the table is cleared no slot is left to complete: every reply that
/// comes later finds nothing, so none is completed twice.
pub proof fn lemma_clear_leaves_nothing<S>(id: u64)
    ensures
        !Map::<u64, S>::empty().contains_key(id),
        Map::<u64, S>::empty().remove(id) == Map::<u64, S>::empty(),
{
    assert(Map::<u64, S>::empty().remove(id) =~= Map::<u64, S>::empty());
}

} // verus!
