//! The correlation table: an in-memory map from each pending request id to
//! the one-shot sink awaiting that request's response. An entry is created
//! when a request is sent and destroyed exactly once, when the matching
//! response is dispatched.

use std::collections::HashMap;
use vstd::prelude::*;

verus! {

broadcast use vstd::std_specs::hash::group_hash_axioms;

/// Maps each outstanding request id to the sink awaiting its response.
pub struct CorrelationTable<S> {
    entries: HashMap<u64, S>,
}

impl<S> View for CorrelationTable<S> {
    type V = Map<u64, S>;

    closed spec fn view(&self) -> Map<u64, S> {
        self.entries@
    }
}

impl<S> CorrelationTable<S> {
    /// An empty table: nothing is pending.
    pub fn new() -> (t: Self)
        ensures
            t@ == Map::<u64, S>::empty(),
    {
        CorrelationTable { entries: HashMap::new() }
    }

    /// How many requests are pending.
    pub fn len(&self) -> (n: usize)
        ensures
            n == self@.len(),
    {
        self.entries.len()
    }

    /// Whether a response for `id` is still awaited.
    pub fn contains(&self, id: u64) -> (b: bool)
        ensures
            b == self@.contains_key(id),
    {
        self.entries.contains_key(&id)
    }

    /// Inserts a new pending entry. The id must be fresh: the single
    /// monotonic counter never reissues one, short of exhaustion.
    pub fn register(&mut self, id: u64, sink: S)
        requires
            !old(self)@.contains_key(id),
        ensures
            final(self)@ == old(self)@.insert(id, sink),
    {
        self.entries.insert(id, sink);
    }

    /// Removes and returns the sink for `id` if present, else returns none.
    /// A miss signals a protocol anomaly — a response for an id never sent,
    /// sent twice, or already resolved — reported by the caller as a
    /// no-listener condition. Other entries are untouched either way.
    pub fn resolve(&mut self, id: u64) -> (r: Option<S>)
        ensures
            final(self)@ == old(self)@.remove(id),
            match r {
                Some(sink) => old(self)@.contains_key(id) && sink == old(self)@[id],
                None => !old(self)@.contains_key(id),
            },
            !old(self)@.contains_key(id) ==> final(self)@ == old(self)@,
    {
        let r = self.entries.remove(&id);
        proof {
            if !old(self)@.contains_key(id) {
                assert(old(self)@.remove(id) =~= old(self)@);
            }
        }
        r
    }
}

/// Law: registering a fresh id and then resolving it yields exactly that
/// sink and removes the entry; a resolve of the same id after that misses;
/// and no other id's presence or value changes at any step.
pub proof fn lemma_register_then_resolve<S>(t: Map<u64, S>, id: u64, sink: S)
    requires
        !t.contains_key(id),
    ensures
        t.insert(id, sink).contains_key(id),
        t.insert(id, sink)[id] == sink,
        t.insert(id, sink).remove(id) == t,
        !t.insert(id, sink).remove(id).contains_key(id),
        forall|other: u64|
            other != id ==> ((#[trigger] t.insert(id, sink).remove(id).contains_key(other))
                <==> t.contains_key(other)),
        forall|other: u64|
            other != id && t.contains_key(other) ==> #[trigger] t.insert(id, sink).remove(
                id,
            )[other] == t[other],
{
    assert(t.insert(id, sink).remove(id) =~= t);
}

/// Law: resolving an id that was never registered misses and leaves every
/// entry's presence and value as it was.
pub proof fn lemma_resolve_unregistered<S>(t: Map<u64, S>, id: u64)
    requires
        !t.contains_key(id),
    ensures
        t.remove(id) == t,
        forall|other: u64| (#[trigger] t.remove(id).contains_key(other)) <==> t.contains_key(other),
        forall|other: u64|
            t.contains_key(other) ==> #[trigger] t.remove(id)[other] == t[other],
{
    assert(t.remove(id) =~= t);
}

} // verus!
