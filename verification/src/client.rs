//! The correlation core of one connection: the monotonically advancing
//! request-id counter and the table of pending requests. The stream handle
//! stays with the caller, which writes the envelope bytes `send` produces
//! and feeds `get_next_message` the bytes of one full inbound envelope.

use crate::codec::{
    decode_response, encode_request, lemma_response_round_trip, spec_decode_response,
    spec_encode_request, spec_encode_response, Request, Response,
};
use crate::table::CorrelationTable;
use vstd::prelude::*;

verus! {

/// Failure conditions reported by the pump and table layer.
#[derive(Clone, Copy, Debug, PartialEq, Eq, Structural)]
pub enum HalError {
    /// A write or decode failure on an established connection; fatal for
    /// the in-flight call, and the stream position may be desynchronized.
    StreamError,
    /// A decoded response id had no pending entry awaiting it: a single
    /// lost reply, with the stream still positioned at the next envelope.
    NoListener,
}

/// The per-connection state that assigns ids and matches replies to calls.
pub struct HalClient<S> {
    req_id: u64,
    listeners: CorrelationTable<S>,
}

impl<S> HalClient<S> {
    /// The id the next send will be given.
    pub closed spec fn next_id(self) -> u64 {
        self.req_id
    }

    /// The pending entries: each outstanding id and the sink awaiting it.
    pub closed spec fn pending(self) -> Map<u64, S> {
        self.listeners@
    }

    /// Every pending id was issued earlier by the counter, so the next id
    /// is always fresh and no live id is ever registered twice.
    pub open spec fn wf(self) -> bool {
        forall|id: u64| #[trigger] self.pending().contains_key(id) ==> id < self.next_id()
    }

    /// A fresh connection core: counter at zero, nothing pending.
    pub fn new() -> (c: Self)
        ensures
            c.next_id() == 0,
            c.pending() == Map::<u64, S>::empty(),
            c.wf(),
    {
        HalClient { req_id: 0, listeners: CorrelationTable::new() }
    }

    /// Reads the counter without advancing it.
    pub fn next_request_id(&self) -> (id: u64)
        ensures
            id == self.next_id(),
    {
        self.req_id
    }

    /// How many requests are pending.
    pub fn pending_count(&self) -> (n: usize)
        ensures
            n == self.pending().len(),
    {
        self.listeners.len()
    }

    /// Whether a response for `id` is still awaited.
    pub fn is_pending(&self, id: u64) -> (b: bool)
        ensures
            b == self.pending().contains_key(id),
    {
        self.listeners.contains(id)
    }

    /// Allocates the next id, registers the sink under it, and returns the
    /// encoded outbound envelope for the caller to write to the stream.
    /// If that write fails, the entry stays registered and will never be
    /// resolved — a known leak of the design, not cleaned up here.
    pub fn send(&mut self, request: Request, sink: S) -> (bytes: Vec<u8>)
        requires
            old(self).wf(),
            old(self).next_id() < u64::MAX,
        ensures
            final(self).wf(),
            bytes@ == spec_encode_request(old(self).next_id(), request),
            final(self).next_id() == old(self).next_id() + 1,
            final(self).pending() == old(self).pending().insert(old(self).next_id(), sink),
    {
        let id = self.req_id;
        proof {
            assert(!old(self).pending().contains_key(id));
        }
        self.req_id = id + 1;
        self.listeners.register(id, sink);
        proof {
            assert forall|p: u64| #[trigger] self.pending().contains_key(p) implies p
                < self.next_id() by {
                if p != id {
                    assert(old(self).pending().contains_key(p));
                }
            }
        }
        encode_request(id, &request)
    }

    /// Dispatches one inbound envelope: decodes it and resolves the echoed
    /// id against the table. Returns the resolved id, its sink and the
    /// decoded payload; the caller hands the payload to the sink. Fails
    /// with a stream error when the bytes are no defined envelope, and with
    /// a no-listener error when the id has no pending entry; only a
    /// successful dispatch changes the table, and the counter never moves.
    pub fn get_next_message(&mut self, bytes: &[u8]) -> (r: Result<(u64, S, Response), HalError>)
        requires
            old(self).wf(),
        ensures
            final(self).wf(),
            final(self).next_id() == old(self).next_id(),
            match spec_decode_response(bytes@) {
                Some((id, response)) => {
                    if old(self).pending().contains_key(id) {
                        &&& r matches Ok(out) && out == (id, old(self).pending()[id], response)
                        &&& final(self).pending() == old(self).pending().remove(id)
                    } else {
                        &&& r == Err::<(u64, S, Response), HalError>(HalError::NoListener)
                        &&& final(self).pending() == old(self).pending()
                    }
                },
                None => {
                    &&& r == Err::<(u64, S, Response), HalError>(HalError::StreamError)
                    &&& final(self).pending() == old(self).pending()
                },
            },
    {
        match decode_response(bytes) {
            Some((id, response)) => match self.listeners.resolve(id) {
                Some(sink) => Ok((id, sink, response)),
                None => Err(HalError::NoListener),
            },
            None => Err(HalError::StreamError),
        }
    }
}

/// The correlation state as the protocol model sees it: the next id to
/// issue and the set of pending ids.
pub struct ProtocolState {
    pub next_id: int,
    pub pending: Map<u64, ()>,
}

/// A fresh connection: counter at zero, nothing pending.
pub open spec fn protocol_init() -> ProtocolState {
    ProtocolState { next_id: 0, pending: Map::empty() }
}

/// One single-outstanding round trip: a send issues the counter's id and
/// registers it, the daemon answers with an envelope echoing that id, and
/// the pump resolves whatever id the decoder recovers from that envelope.
pub open spec fn round_trip_step(st: ProtocolState, reply: Response) -> ProtocolState {
    let issued = st.next_id as u64;
    let after_send = ProtocolState {
        next_id: st.next_id + 1,
        pending: st.pending.insert(issued, ()),
    };
    match spec_decode_response(spec_encode_response(issued, reply)) {
        Some((echoed, _)) => ProtocolState {
            next_id: after_send.next_id,
            pending: after_send.pending.remove(echoed),
        },
        None => after_send,
    }
}

/// The state after the first `n` of the given round trips.
pub open spec fn state_after_round_trips(n: nat, replies: Seq<Response>) -> ProtocolState
    decreases n,
{
    if n == 0 {
        protocol_init()
    } else {
        round_trip_step(state_after_round_trips((n - 1) as nat, replies), replies[n - 1])
    }
}

/// The id that round `i` (counting from zero) issues for its send.
pub open spec fn issued_id_in_round(i: nat, replies: Seq<Response>) -> u64 {
    state_after_round_trips(i, replies).next_id as u64
}

/// The id the decoder recovers from round `i`'s reply envelope.
pub open spec fn echoed_id_in_round(i: nat, replies: Seq<Response>) -> Option<u64> {
    match spec_decode_response(
        spec_encode_response(issued_id_in_round(i, replies), replies[i as int]),
    ) {
        Some((id, _)) => Some(id),
        None => None,
    }
}

/// Law: over any run of single-outstanding round trips from a fresh
/// connection, the id echoed in each decoded reply equals the id that
/// round's send issued, the issued ids are exactly 0, 1, ... in order, and
/// every registered entry is resolved again, leaving nothing pending.
pub proof fn lemma_single_outstanding_round_trips(n: nat, replies: Seq<Response>)
    requires
        n <= u64::MAX,
        replies.len() >= n,
    ensures
        state_after_round_trips(n, replies).next_id == n,
        state_after_round_trips(n, replies).pending == Map::<u64, ()>::empty(),
        forall|i: nat| i < n ==> issued_id_in_round(i, replies) == i,
        forall|i: nat|
            i < n ==> echoed_id_in_round(i, replies) == Some(issued_id_in_round(i, replies)),
    decreases n,
{
    if n == 0 {
        assert(state_after_round_trips(0, replies).pending =~= Map::<u64, ()>::empty());
    } else {
        lemma_single_outstanding_round_trips((n - 1) as nat, replies);
        let prev = state_after_round_trips((n - 1) as nat, replies);
        let issued = prev.next_id as u64;
        lemma_response_round_trip(issued, replies[n - 1]);
        assert(prev.pending.insert(issued, ()).remove(issued) =~= Map::<u64, ()>::empty());
    }
}

} // verus!
