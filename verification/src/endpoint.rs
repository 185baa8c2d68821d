//! Who a datagram came from, and what the transport reports.

use vstd::prelude::*;
use crate::codec::{decode, decode_bytes, Message, MessageView};
use crate::error::SessionError;

verus! {

/// A remote peer as the transport sees it: the local resource the traffic
/// runs through, and the peer's address and port. An IPv4 address is held in
/// its IPv6-mapped form.
#[derive(Debug, Clone, Copy, PartialEq, Eq, Structural, Hash)]
pub struct EndpointId {
    pub resource: u64,
    pub ip: u128,
    pub port: u16,
}

impl EndpointId {
    /// The three numbers as one tuple, which is what the client table is
    /// keyed by.
    pub open spec fn key(self) -> (u64, u128, u16) {
        (self.resource, self.ip, self.port)
    }

    /// The tuple that [`EndpointId::key`] describes.
    pub fn to_key(&self) -> (key: (u64, u128, u16))
        ensures
            key == self.key(),
    {
        (self.resource, self.ip, self.port)
    }
}

/// One event of the transport, in plain values.
#[derive(Debug, Clone, PartialEq, Eq)]
pub enum NetEvent {
    /// A connection attempt to the peer ended, well or not.
    Connected(EndpointId, bool),
    /// A listener, named by its resource, accepted the peer.
    Accepted(EndpointId, u64),
    /// The peer sent a payload.
    Message(EndpointId, Vec<u8>),
    /// The peer is gone.
    Disconnected(EndpointId),
}

/// The mathematical value of a [`NetEvent`].
pub enum NetEventView {
    Connected(EndpointId, bool),
    Accepted(EndpointId, u64),
    Message(EndpointId, Seq<u8>),
    Disconnected(EndpointId),
}

impl View for NetEvent {
    type V = NetEventView;

    open spec fn view(&self) -> NetEventView {
        match self {
            NetEvent::Connected(peer, established) => NetEventView::Connected(*peer, *established),
            NetEvent::Accepted(peer, listener) => NetEventView::Accepted(*peer, *listener),
            NetEvent::Message(peer, payload) => NetEventView::Message(*peer, payload@),
            NetEvent::Disconnected(peer) => NetEventView::Disconnected(*peer),
        }
    }
}

impl DeepView for NetEvent {
    type V = NetEventView;

    open spec fn deep_view(&self) -> NetEventView {
        self@
    }
}

/// Whether `event` is a payload that decodes to `message`.
pub open spec fn carries(event: NetEventView, message: MessageView) -> bool {
    event matches NetEventView::Message(_, payload) && decode_bytes(payload) == message
}

/// Whether `event` is a payload that is none of the tokens.
pub open spec fn is_malformed(event: NetEventView) -> bool {
    event matches NetEventView::Message(_, payload) && decode_bytes(payload) is Unknown
}

/// What folding in one event reports: `MalformedMessage` for a payload that
/// is no token, and success for everything else.
pub open spec fn reaction_outcome(event: NetEventView) -> Result<(), SessionError> {
    if is_malformed(event) {
        Err(SessionError::MalformedMessage)
    } else {
        Ok(())
    }
}

/// The malformed payloads among `events`, in order of arrival.
pub open spec fn malformed_among(events: Seq<NetEventView>) -> Seq<NetEventView> {
    events.filter(|event: NetEventView| is_malformed(event))
}

/// Whether the event is a payload that is none of the tokens.
pub fn is_malformed_event(event: &NetEvent) -> (malformed: bool)
    ensures
        malformed == is_malformed(event@),
{
    match event {
        NetEvent::Message(_, payload) => match decode(payload.as_slice()) {
            Message::Unknown(_) => true,
            _ => false,
        },
        _ => false,
    }
}

/// How many of `events` are malformed payloads: what a tick drops without a
/// word, counted so that the caller can say so.
pub fn count_malformed(events: &[NetEvent]) -> (count: usize)
    ensures
        count == malformed_among(events.deep_view()).len(),
{
    let ghost queued = events.deep_view();
    let mut count: usize = 0;
    let mut i: usize = 0;
    while i < events.len()
        invariant
            i <= events.len(),
            queued == events.deep_view(),
            count <= i,
            count == malformed_among(queued.take(i as int)).len(),
        decreases events.len() - i,
    {
        proof {
            let pred = |event: NetEventView| is_malformed(event);
            assert(queued.take(i + 1) =~= queued.take(i as int).push(queued[i as int]));
            queued.take(i as int).lemma_filter_push(queued[i as int], pred);
            assert(queued[i as int] == events[i as int]@);
        }
        if is_malformed_event(&events[i]) {
            count += 1;
        }
        i += 1;
    }
    proof {
        assert(queued.take(i as int) =~= queued);
    }
    count
}

} // verus!
