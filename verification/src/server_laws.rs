//! What holds of every server, whatever arrives.

use vstd::prelude::*;
use vstd::utf8::*;
use crate::endpoint::is_malformed;
use crate::codec::invalid_utf8_decodes_to_unknown;
use crate::endpoint::{EndpointId, NetEventView};
use crate::server::{any_authorized, authorizes, ServerView, ShutdownPolicy};
use crate::server_connection::{
    handshake_sender, replies, shutdown_senders, ServerConnectionView,
};

verus! {

/// A payload that is no token leaves the server exactly as it was.
pub proof fn malformed_event_changes_nothing(server: ServerConnectionView, event: NetEventView)
    requires
        is_malformed(event),
    ensures
        server.react(event) == server,
{
}

/// A payload that is not valid UTF-8 is malformed, and so leaves the server
/// exactly as it was.
pub proof fn invalid_utf8_changes_nothing(
    server: ServerConnectionView,
    peer: EndpointId,
    payload: Seq<u8>,
)
    requires
        !valid_utf8(payload),
    ensures
        is_malformed(NetEventView::Message(peer, payload)),
        server.react(NetEventView::Message(peer, payload)) == server,
{
    invalid_utf8_decodes_to_unknown(payload);
}

/// After a pass over `events` the queue of shutdown requests is what it was,
/// followed by one entry for each shutdown request among the events, in order
/// of arrival; the outbox is what it was, followed by one answer for each
/// handshake and each ping, in order of arrival. Address and port stay.
pub proof fn pass_appends(server: ServerConnectionView, events: Seq<NetEventView>)
    ensures
        server.react_all(events).shutdown_requests == server.shutdown_requests + shutdown_senders(
            events,
        ),
        server.react_all(events).outbox == server.outbox + replies(events),
        server.react_all(events).address == server.address,
        server.react_all(events).port == server.port,
    decreases events.len(),
{
    if events.len() == 0 {
        assert(server.shutdown_requests + shutdown_senders(events) =~= server.shutdown_requests);
        assert(server.outbox + replies(events) =~= server.outbox);
    } else {
        let before = events.drop_last();
        pass_appends(server, before);
        let reached = server.react_all(before);
        assert(server.react_all(events).shutdown_requests =~= server.shutdown_requests
            + shutdown_senders(events));
        assert(server.react_all(events).outbox =~= server.outbox + replies(events));
    }
}

/// After a pass over `events` the known clients are those known before and
/// those that shook hands in the pass. Who was known keeps the name; who is
/// new has the empty name.
pub proof fn pass_files_handshakes(
    server: ServerConnectionView,
    events: Seq<NetEventView>,
    peer: EndpointId,
)
    ensures
        server.react_all(events).clients.contains_key(peer) <==> server.clients.contains_key(peer)
            || exists|i: int|
            0 <= i < events.len() && handshake_sender(#[trigger] events[i]) == Some(peer),
        server.clients.contains_key(peer) ==> server.react_all(events).clients[peer]
            == server.clients[peer],
        server.react_all(events).clients.contains_key(peer) && !server.clients.contains_key(peer)
            ==> server.react_all(events).clients[peer] == Seq::<char>::empty(),
    decreases events.len(),
{
    if events.len() > 0 {
        let before = events.drop_last();
        pass_files_handshakes(server, before, peer);
        if exists|i: int|
            0 <= i < before.len() && handshake_sender(#[trigger] before[i]) == Some(peer) {
            let i = choose|i: int|
                0 <= i < before.len() && handshake_sender(#[trigger] before[i]) == Some(peer);
            assert(handshake_sender(events[i]) == Some(peer));
        }
        if handshake_sender(events.last()) == Some(peer) {
            assert(handshake_sender(events[events.len() - 1]) == Some(peer));
        }
        if exists|i: int|
            0 <= i < events.len() && handshake_sender(#[trigger] events[i]) == Some(peer) {
            let i = choose|i: int|
                0 <= i < events.len() && handshake_sender(#[trigger] events[i]) == Some(peer);
            if i < before.len() {
                assert(handshake_sender(before[i]) == Some(peer));
            }
        }
    }
}

/// A queue that was just drained holds, after the next pass, exactly one
/// entry for each shutdown request of that pass, in order of arrival.
pub proof fn drained_queue_refills(server: ServerConnectionView, events: Seq<NetEventView>)
    requires
        server.shutdown_requests == Seq::<EndpointId>::empty(),
    ensures
        server.react_all(events).shutdown_requests == shutdown_senders(events),
{
    pass_appends(server, events);
    assert(server.shutdown_requests + shutdown_senders(events) =~= shutdown_senders(events));
}

/// Two passes, one after the other, are one pass over the events joined.
pub proof fn pass_in_two_parts(
    server: ServerConnectionView,
    first: Seq<NetEventView>,
    second: Seq<NetEventView>,
)
    ensures
        server.react_all(first + second) == server.react_all(first).react_all(second),
    decreases second.len(),
{
    if second.len() == 0 {
        assert(first + second =~= first);
    } else {
        assert((first + second).drop_last() =~= first + second.drop_last());
        assert((first + second).last() == second.last());
        pass_in_two_parts(server, first, second.drop_last());
    }
}

/// Between two drains the queue collects over every pass: after a drain and
/// two passes it holds one entry for each shutdown request of the first pass,
/// then one for each of the second, in order of arrival.
pub proof fn queue_collects_over_passes(
    server: ServerConnectionView,
    first: Seq<NetEventView>,
    second: Seq<NetEventView>,
)
    requires
        server.shutdown_requests == Seq::<EndpointId>::empty(),
    ensures
        server.react_all(first).react_all(second).shutdown_requests == shutdown_senders(first)
            + shutdown_senders(second),
        shutdown_senders(first + second) == shutdown_senders(first) + shutdown_senders(second),
{
    pass_in_two_parts(server, first, second);
    drained_queue_refills(server, first + second);
    drained_queue_refills(server, first);
    pass_appends(server.react_all(first), second);
}

/// After a tick the queue of shutdown requests is empty: the tick drains
/// what it queued.
pub proof fn tick_drains_queue(server: ServerView, events: Seq<NetEventView>)
    ensures
        server.tick(events).connection.shutdown_requests == Seq::<EndpointId>::empty(),
{
}

/// Approval is never taken back: a server whose shutdown is approved stays
/// so through every tick.
pub proof fn approval_is_final(server: ServerView, events: Seq<NetEventView>)
    requires
        server.shutdown_approved,
    ensures
        server.tick(events).shutdown_approved,
{
}

/// Under `AcceptAny` a single shutdown request among a tick's events, from
/// whomever, approves the shutdown.
pub proof fn accept_any_honours_any_request(server: ServerView, events: Seq<NetEventView>)
    requires
        server.policy == ShutdownPolicy::AcceptAny,
        shutdown_senders(events).len() > 0,
    ensures
        server.tick(events).shutdown_approved,
{
    pass_appends(server.connection, events);
    let queue = server.connection.react_all(events).shutdown_requests;
    let clients = server.connection.react_all(events).clients;
    assert(queue.len() > 0);
    assert(authorizes(server.policy, clients, queue[0]));
}

/// Under `KnownClientsOnly` requests of peers that are not in the table are
/// refused: if none of those who asked is known once the pass is over, a
/// shutdown that was not approved before is not approved now.
pub proof fn strangers_are_refused(server: ServerView, events: Seq<NetEventView>)
    requires
        server.policy == ShutdownPolicy::KnownClientsOnly,
        !server.shutdown_approved,
        forall|i: int|
            0 <= i < server.connection.react_all(events).shutdown_requests.len()
                ==> !server.connection.react_all(events).clients.contains_key(
                #[trigger] server.connection.react_all(events).shutdown_requests[i],
            ),
    ensures
        !server.tick(events).shutdown_approved,
{
}

/// Under `KnownClientsOnly` the request of a known peer approves the
/// shutdown. A peer that shook hands earlier in the same tick is known.
pub proof fn known_requester_is_honoured(
    server: ServerView,
    events: Seq<NetEventView>,
    place: int,
)
    requires
        server.policy == ShutdownPolicy::KnownClientsOnly,
        0 <= place < server.connection.react_all(events).shutdown_requests.len(),
        server.connection.react_all(events).clients.contains_key(
            server.connection.react_all(events).shutdown_requests[place],
        ),
    ensures
        server.tick(events).shutdown_approved,
{
    let queue = server.connection.react_all(events).shutdown_requests;
    let clients = server.connection.react_all(events).clients;
    assert(authorizes(server.policy, clients, queue[place]));
    assert(any_authorized(server.policy, clients, queue));
}

} // verus!
