//! The synchronous facade: one paired send and pump per user-visible
//! action. Each action is split in two halves around the caller's stream
//! I/O: a begin half that issues the id, registers it and returns the
//! envelope bytes to write, and a finish half that is fed the reply bytes
//! and pumps exactly once. The facade absorbs every failure: state-changing
//! actions degrade to no-ops and the brightness read returns zero, so a
//! caller cannot tell reported zero from protocol failure — a deliberate
//! trait of the design, kept here as stated behaviour.
//!
//! The contracts hold for every input; the values they promise are the
//! intended ones only under the single-outstanding discipline, at most one
//! request unresolved per connection at any time. Nothing enforces that
//! discipline: a stale reply resolves whatever entry bears its id.

use crate::client::{HalClient, HalError};
use crate::codec::{spec_decode_response, spec_encode_request, Request, Response};
use vstd::prelude::*;

verus! {

/// A blocking one-call-per-action client, less the stream it speaks over.
pub struct SimpleClient {
    client: HalClient<()>,
    awaiting: Option<u64>,
}

impl SimpleClient {
    /// The connection core underneath the facade.
    pub closed spec fn conn(self) -> HalClient<()> {
        self.client
    }

    /// The id of the round trip begun and not yet finished, if any.
    pub closed spec fn awaiting_id(self) -> Option<u64> {
        self.awaiting
    }

    pub open spec fn wf(self) -> bool {
        self.conn().wf()
    }

    /// What every begin half ensures: the envelope for `request` under the
    /// freshly issued id is returned, and that id is now pending and
    /// awaited, with the counter advanced past it.
    pub open spec fn begun(pre: Self, post: Self, request: Request, bytes: Seq<u8>) -> bool {
        &&& bytes == spec_encode_request(pre.conn().next_id(), request)
        &&& post.conn().next_id() == pre.conn().next_id() + 1
        &&& post.conn().pending() == pre.conn().pending().insert(pre.conn().next_id(), ())
        &&& post.awaiting_id() == Some(pre.conn().next_id())
    }

    /// A facade over a fresh connection core.
    pub fn new() -> (c: Self)
        ensures
            c.wf(),
            c.conn().next_id() == 0,
            c.conn().pending() == Map::<u64, ()>::empty(),
            c.awaiting_id() == None::<u64>,
    {
        SimpleClient { client: HalClient::new(), awaiting: None }
    }

    /// Reads the counter: the id the next action will use.
    pub fn next_request_id(&self) -> (id: u64)
        ensures
            id == self.conn().next_id(),
    {
        self.client.next_request_id()
    }

    /// How many requests are pending.
    pub fn pending_count(&self) -> (n: usize)
        ensures
            n == self.conn().pending().len(),
    {
        self.client.pending_count()
    }

    fn begin(&mut self, request: Request) -> (bytes: Vec<u8>)
        requires
            old(self).wf(),
            old(self).conn().next_id() < u64::MAX,
        ensures
            final(self).wf(),
            Self::begun(*old(self), *final(self), request, bytes@),
    {
        let id = self.client.next_request_id();
        let bytes = self.client.send(request, ());
        self.awaiting = Some(id);
        bytes
    }

    /// Begins a brightness write.
    pub fn set_screen_brightness(&mut self, value: u8) -> (bytes: Vec<u8>)
        requires
            old(self).wf(),
            old(self).conn().next_id() < u64::MAX,
        ensures
            final(self).wf(),
            Self::begun(*old(self), *final(self), Request::SetBrightness(value), bytes@),
    {
        self.begin(Request::SetBrightness(value))
    }

    /// Begins a brightness read; its reply goes to `finish_get_brightness`.
    pub fn get_screen_brightness(&mut self) -> (bytes: Vec<u8>)
        requires
            old(self).wf(),
            old(self).conn().next_id() < u64::MAX,
        ensures
            final(self).wf(),
            Self::begun(*old(self), *final(self), Request::GetBrightness, bytes@),
    {
        self.begin(Request::GetBrightness)
    }

    /// Begins enabling the named screen.
    pub fn enable_screen(&mut self, screen_id: u8) -> (bytes: Vec<u8>)
        requires
            old(self).wf(),
            old(self).conn().next_id() < u64::MAX,
        ensures
            final(self).wf(),
            Self::begun(*old(self), *final(self), Request::EnableScreen(screen_id), bytes@),
    {
        self.begin(Request::EnableScreen(screen_id))
    }

    /// Begins disabling the named screen.
    pub fn disable_screen(&mut self, screen_id: u8) -> (bytes: Vec<u8>)
        requires
            old(self).wf(),
            old(self).conn().next_id() < u64::MAX,
        ensures
            final(self).wf(),
            Self::begun(*old(self), *final(self), Request::DisableScreen(screen_id), bytes@),
    {
        self.begin(Request::DisableScreen(screen_id))
    }

    /// Begins a reboot.
    pub fn reboot(&mut self) -> (bytes: Vec<u8>)
        requires
            old(self).wf(),
            old(self).conn().next_id() < u64::MAX,
        ensures
            final(self).wf(),
            Self::begun(*old(self), *final(self), Request::Reboot, bytes@),
    {
        self.begin(Request::Reboot)
    }

    /// Begins a power-off.
    pub fn poweroff(&mut self) -> (bytes: Vec<u8>)
        requires
            old(self).wf(),
            old(self).conn().next_id() < u64::MAX,
        ensures
            final(self).wf(),
            Self::begun(*old(self), *final(self), Request::PowerOff, bytes@),
    {
        self.begin(Request::PowerOff)
    }

    /// Finish half shared by the acknowledged actions: pumps once on the
    /// reply bytes and reports how the dispatch went. The caller that
    /// degrades on failure simply discards the result.
    pub fn finish_action(&mut self, inbound: &[u8]) -> (r: Result<Response, HalError>)
        requires
            old(self).wf(),
        ensures
            final(self).wf(),
            final(self).awaiting_id() == None::<u64>,
            final(self).conn().next_id() == old(self).conn().next_id(),
            match spec_decode_response(inbound@) {
                Some((id, response)) => {
                    if old(self).conn().pending().contains_key(id) {
                        &&& r == Ok::<Response, HalError>(response)
                        &&& final(self).conn().pending() == old(self).conn().pending().remove(id)
                    } else {
                        &&& r == Err::<Response, HalError>(HalError::NoListener)
                        &&& final(self).conn().pending() == old(self).conn().pending()
                    }
                },
                None => {
                    &&& r == Err::<Response, HalError>(HalError::StreamError)
                    &&& final(self).conn().pending() == old(self).conn().pending()
                },
            },
    {
        self.awaiting = None;
        match self.client.get_next_message(inbound) {
            Ok((_, _, response)) => Ok(response),
            Err(e) => Err(e),
        }
    }

    /// Finish half of the brightness read: pumps once and returns the value
    /// the daemon reported. Every failure — undecodable reply, reply for an
    /// id not pending, reply for an id other than the one this facade
    /// awaits, or a value-less variant — is absorbed into zero, so the
    /// caller cannot tell reported zero from failure.
    pub fn finish_get_brightness(&mut self, inbound: &[u8]) -> (value: u8)
        requires
            old(self).wf(),
        ensures
            final(self).wf(),
            final(self).awaiting_id() == None::<u64>,
            final(self).conn().next_id() == old(self).conn().next_id(),
            match spec_decode_response(inbound@) {
                Some((id, response)) => {
                    &&& final(self).conn().pending() == (if old(self).conn().pending().contains_key(
                        id,
                    ) {
                        old(self).conn().pending().remove(id)
                    } else {
                        old(self).conn().pending()
                    })
                    &&& value == (match response {
                        Response::GetBrightnessSuccess(v) => {
                            if old(self).conn().pending().contains_key(id) && old(
                                self,
                            ).awaiting_id() == Some(id) {
                                v
                            } else {
                                0u8
                            }
                        },
                        _ => 0u8,
                    })
                },
                None => {
                    &&& final(self).conn().pending() == old(self).conn().pending()
                    &&& value == 0u8
                },
            },
    {
        let awaited = self.awaiting;
        self.awaiting = None;
        match self.client.get_next_message(inbound) {
            Ok((id, _, response)) => {
                let ours = match awaited {
                    Some(a) => a == id,
                    None => false,
                };
                if ours {
                    match response {
                        Response::GetBrightnessSuccess(v) => v,
                        _ => 0,
                    }
                } else {
                    0
                }
            },
            Err(_) => 0,
        }
    }
}

} // verus!
