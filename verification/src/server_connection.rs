//! The server's side of the sessions: it answers handshakes and pings, files
//! who has shaken hands, and queues every request to shut down.

use vstd::prelude::*;
use crate::codec::{decode, decode_bytes, Message, MessageView};
use crate::endpoint::{EndpointId, NetEvent, NetEventView};
use crate::connection::{checked_port, is_socket_port};
use crate::error::SessionError;
use crate::text::{socket_name, socket_text};
use crate::endpoint::reaction_outcome;
use crate::server_laws::pass_appends;
use crate::registry::{table_entries, table_get, table_insert, table_new, ClientKey, ClientTable};

verus! {

/// A message on its way to one peer.
#[derive(Debug, Clone, PartialEq, Eq)]
pub struct Reply {
    pub to: EndpointId,
    pub message: Message,
}

/// The mathematical value of a [`Reply`].
pub struct ReplyView {
    pub to: EndpointId,
    pub message: MessageView,
}

impl View for Reply {
    type V = ReplyView;

    open spec fn view(&self) -> ReplyView {
        ReplyView { to: self.to, message: self.message@ }
    }
}

impl DeepView for Reply {
    type V = ReplyView;

    open spec fn deep_view(&self) -> ReplyView {
        self@
    }
}

/// The server's end of all sessions. It owns no socket: what it wants sent
/// collects in an outbox, and what arrived is handed to [`ServerConnection::receive`].
pub struct ServerConnection {
    address: String,
    port: i32,
    clients: ClientTable,
    shutdown_requests: Vec<EndpointId>,
    outbox: Vec<Reply>,
}

/// The mathematical value of a [`ServerConnection`].
pub struct ServerConnectionView {
    pub address: Seq<char>,
    pub port: int,
    /// The peers that are known, each with its name. A peer that has only
    /// shaken hands has the empty name.
    pub clients: Map<EndpointId, Seq<char>>,
    /// Who asked for a shutdown since the queue was last drained, one entry
    /// per request, oldest first.
    pub shutdown_requests: Seq<EndpointId>,
    /// Answers waiting to be sent, oldest first.
    pub outbox: Seq<ReplyView>,
}

/// A table's entries, looked at by peer.
pub open spec fn clients_of(entries: Map<ClientKey, Seq<char>>) -> Map<EndpointId, Seq<char>> {
    Map::new(
        |peer: EndpointId| entries.contains_key(peer.key()),
        |peer: EndpointId| entries[peer.key()],
    )
}

/// The peer that asks for a shutdown with this event, if it does.
pub open spec fn shutdown_sender(event: NetEventView) -> Option<EndpointId> {
    match event {
        NetEventView::Message(peer, payload) => if decode_bytes(payload)
            == MessageView::ShutdownRequest {
            Some(peer)
        } else {
            None
        },
        _ => None,
    }
}

/// The answer that this event is owed, if any: a handshake is confirmed and a
/// ping is answered, each to its sender.
pub open spec fn reply_to(event: NetEventView) -> Option<ReplyView> {
    match event {
        NetEventView::Message(peer, payload) => match decode_bytes(payload) {
            MessageView::Handshake => Some(
                ReplyView { to: peer, message: MessageView::HandshakeAck },
            ),
            MessageView::PingRequest => Some(ReplyView { to: peer, message: MessageView::PingAck }),
            _ => None,
        },
        _ => None,
    }
}

/// The peer that shakes hands with this event, if it does.
pub open spec fn handshake_sender(event: NetEventView) -> Option<EndpointId> {
    match event {
        NetEventView::Message(peer, payload) => if decode_bytes(payload) == MessageView::Handshake {
            Some(peer)
        } else {
            None
        },
        _ => None,
    }
}

/// The senders of the shutdown requests among `events`, one entry for each
/// request, in order of arrival.
pub open spec fn shutdown_senders(events: Seq<NetEventView>) -> Seq<EndpointId> {
    events.filter_map(|event: NetEventView| shutdown_sender(event))
}

/// The answers that `events` are owed, in order of arrival.
pub open spec fn replies(events: Seq<NetEventView>) -> Seq<ReplyView> {
    events.filter_map(|event: NetEventView| reply_to(event))
}

/// The table after `peer` has shaken hands: a peer that was not known is
/// filed with the empty name, and one that was keeps its name.
pub open spec fn greet(clients: Map<EndpointId, Seq<char>>, peer: EndpointId) -> Map<
    EndpointId,
    Seq<char>,
> {
    if clients.contains_key(peer) {
        clients
    } else {
        clients.insert(peer, Seq::empty())
    }
}

impl ServerConnectionView {
    /// A server that has heard nothing yet.
    pub open spec fn fresh(address: Seq<char>, port: int) -> Self {
        ServerConnectionView {
            address,
            port,
            clients: Map::empty(),
            shutdown_requests: Seq::empty(),
            outbox: Seq::empty(),
        }
    }

    /// The server after one event. It only ever reacts: a handshake is
    /// confirmed and its sender filed, a ping is answered, a shutdown request
    /// is queued under its sender. There is no admission: a ping or a shutdown
    /// request is taken from a peer that never shook hands, too.
    pub open spec fn react(self, event: NetEventView) -> Self {
        ServerConnectionView {
            clients: match handshake_sender(event) {
                Some(peer) => greet(self.clients, peer),
                None => self.clients,
            },
            shutdown_requests: match shutdown_sender(event) {
                Some(peer) => self.shutdown_requests.push(peer),
                None => self.shutdown_requests,
            },
            outbox: match reply_to(event) {
                Some(reply) => self.outbox.push(reply),
                None => self.outbox,
            },
            ..self
        }
    }

    /// The server after a queue of events, first come first.
    pub open spec fn react_all(self, events: Seq<NetEventView>) -> Self
        decreases events.len(),
    {
        if events.len() == 0 {
            self
        } else {
            self.react_all(events.drop_last()).react(events.last())
        }
    }
}

impl View for ServerConnection {
    type V = ServerConnectionView;

    closed spec fn view(&self) -> ServerConnectionView {
        ServerConnectionView {
            address: self.address@,
            port: self.port as int,
            clients: clients_of(table_entries(self.clients)),
            shutdown_requests: self.shutdown_requests@,
            outbox: self.outbox.deep_view(),
        }
    }
}

impl ServerConnection {
    /// A server for `address` and `port` that has heard nothing yet.
    pub fn new(address: String, port: i32) -> (connection: Self)
        ensures
            connection@ == ServerConnectionView::fresh(address@, port as int),
    {
        let connection = ServerConnection {
            address,
            port,
            clients: table_new(),
            shutdown_requests: Vec::new(),
            outbox: Vec::new(),
        };
        assert(table_entries(connection.clients) =~= Map::empty());
        assert(connection@.clients =~= Map::empty());
        assert(connection@.outbox =~= Seq::empty());
        connection
    }

    /// Changes the address that the server names. Nothing else moves.
    pub fn set_address(&mut self, new_address: String)
        ensures
            final(self)@ == (ServerConnectionView { address: new_address@, ..old(self)@ }),
    {
        self.address = new_address;
    }

    /// Changes the port that the server names. Nothing else moves.
    pub fn set_port(&mut self, new_port: i32)
        ensures
            final(self)@ == (ServerConnectionView { port: new_port as int, ..old(self)@ }),
    {
        self.port = new_port;
    }

    /// An address and a port as one socket name.
    pub fn get_socket(address: &str, port: i32) -> (socket: String)
        ensures
            socket@ == socket_name(address@, port as int),
    {
        socket_text(address, port)
    }

    /// The socket name of this server.
    pub fn socket(&self) -> (socket: String)
        ensures
            socket@ == socket_name(self@.address, self@.port),
    {
        socket_text(self.address.as_str(), self.port)
    }

    /// The port as a socket takes it, or `TransportUnavailable` where the
    /// configured number is one that no socket can have.
    pub fn socket_port(&self) -> (checked: Result<u16, SessionError>)
        ensures
            is_socket_port(self@.port) ==> checked == Ok::<u16, SessionError>(self@.port as u16),
            !is_socket_port(self@.port) ==> checked == Err::<u16, SessionError>(
                SessionError::TransportUnavailable,
            ),
    {
        checked_port(self.port)
    }

    /// Whether `peer` is in the table of known clients.
    pub fn is_known(&self, peer: EndpointId) -> (known: bool)
        ensures
            known == self@.clients.contains_key(peer),
    {
        table_get(&self.clients, &peer.to_key()).is_some()
    }

    /// The name that `peer` is filed under, if it is known at all.
    pub fn client_name(&self, peer: EndpointId) -> (name: Option<String>)
        ensures
            name is Some == self@.clients.contains_key(peer),
            name matches Some(text) ==> text@ == self@.clients[peer],
    {
        table_get(&self.clients, &peer.to_key())
    }

    /// Files `peer` under `name`, whether it was known before or not.
    pub fn register(&mut self, peer: EndpointId, name: String)
        ensures
            final(self)@ == (ServerConnectionView {
                clients: old(self)@.clients.insert(peer, name@),
                ..old(self)@
            }),
    {
        let _ = table_insert(&mut self.clients, peer.to_key(), name);
        proof {
            let after = clients_of(table_entries(self.clients));
            let before = clients_of(table_entries(old(self).clients));
            assert forall|other: EndpointId| other.key() == peer.key() implies other == peer by {}
            assert(after =~= before.insert(peer, name@));
        }
    }

    /// Who asked for a shutdown since the queue was last drained, oldest first.
    pub fn shutdown_requests(&self) -> (queued: &Vec<EndpointId>)
        ensures
            queued@ == self@.shutdown_requests,
    {
        &self.shutdown_requests
    }

    /// Drains the queue of shutdown requests: hands over every entry, oldest
    /// first, and leaves the queue empty.
    pub fn take_shutdown_requests(&mut self) -> (drained: Vec<EndpointId>)
        ensures
            drained@ == old(self)@.shutdown_requests,
            final(self)@ == (ServerConnectionView {
                shutdown_requests: Seq::empty(),
                ..old(self)@
            }),
    {
        let mut drained: Vec<EndpointId> = Vec::new();
        std::mem::swap(&mut self.shutdown_requests, &mut drained);
        drained
    }

    /// Hands over the answers that wait to be sent, oldest first, and leaves
    /// the outbox empty.
    pub fn take_outbound(&mut self) -> (replies: Vec<Reply>)
        ensures
            replies.deep_view() == old(self)@.outbox,
            final(self)@ == (ServerConnectionView { outbox: Seq::empty(), ..old(self)@ }),
    {
        let mut replies: Vec<Reply> = Vec::new();
        std::mem::swap(&mut self.outbox, &mut replies);
        assert(self.outbox.deep_view() =~= Seq::<ReplyView>::empty());
        replies
    }

    /// Folds one transport event into the server. A payload that is no token
    /// is reported and changes nothing.
    pub fn event_reaction(&mut self, event: NetEvent) -> (outcome: Result<(), SessionError>)
        ensures
            final(self)@ == old(self)@.react(event@),
            outcome == reaction_outcome(event@),
    {
        self.react_to(&event)
    }

    fn react_to(&mut self, event: &NetEvent) -> (outcome: Result<(), SessionError>)
        ensures
            final(self)@ == old(self)@.react(event@),
            outcome == reaction_outcome(event@),
    {
        match event {
            NetEvent::Message(peer, payload) => {
                match decode(payload.as_slice()) {
                    Message::Handshake => {
                        if table_get(&self.clients, &peer.to_key()).is_none() {
                            let _ = table_insert(&mut self.clients, peer.to_key(), String::new());
                        }
                        self.outbox.push(Reply { to: *peer, message: Message::HandshakeAck });
                        proof {
                            let after = clients_of(table_entries(self.clients));
                            let before = clients_of(table_entries(old(self).clients));
                            assert forall|other: EndpointId|
                                other.key() == peer.key() implies other == *peer by {}
                            assert(after =~= greet(before, *peer));
                            assert(self.outbox.deep_view() =~= old(self).outbox.deep_view().push(
                                ReplyView { to: *peer, message: MessageView::HandshakeAck },
                            ));
                        }
                        Ok(())
                    },
                    Message::PingRequest => {
                        self.outbox.push(Reply { to: *peer, message: Message::PingAck });
                        proof {
                            assert(self.outbox.deep_view() =~= old(self).outbox.deep_view().push(
                                ReplyView { to: *peer, message: MessageView::PingAck },
                            ));
                        }
                        Ok(())
                    },
                    Message::ShutdownRequest => {
                        self.shutdown_requests.push(*peer);
                        Ok(())
                    },
                    Message::Unknown(_) => Err(SessionError::MalformedMessage),
                    _ => Ok(()),
                }
            },
            _ => Ok(()),
        }
    }

    /// One pass over what the transport had queued, in order of arrival:
    /// every event is reacted to, none is kept for later.
    pub fn receive(&mut self, events: &[NetEvent])
        ensures
            final(self)@ == old(self)@.react_all(events.deep_view()),
            final(self)@.shutdown_requests == old(self)@.shutdown_requests + shutdown_senders(
                events.deep_view(),
            ),
            final(self)@.outbox == old(self)@.outbox + replies(events.deep_view()),
    {
        let ghost queued = events.deep_view();
        let mut i: usize = 0;
        while i < events.len()
            invariant
                i <= events.len(),
                queued == events.deep_view(),
                self@ == old(self)@.react_all(queued.take(i as int)),
            decreases events.len() - i,
        {
            let _ = self.react_to(&events[i]);
            proof {
                assert(queued.take(i + 1).drop_last() =~= queued.take(i as int));
                assert(queued.take(i + 1).last() == events[i as int]@);
            }
            i += 1;
        }
        proof {
            assert(queued.take(i as int) =~= queued);
            pass_appends(old(self)@, queued);
        }
    }
}

} // verus!
