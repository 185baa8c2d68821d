//! The client: its name, its connection, and whether it wants to quit.

use vstd::prelude::*;
use crate::client_connection::{ClientConnection, ClientConnectionView};
use crate::codec::Message;
use crate::endpoint::{NetEvent, NetEventView};
use crate::error::SessionError;

verus! {

/// A client: the player's name, the connection to the server, and whether the
/// client has been told to quit.
pub struct Client {
    client_name: String,
    connection: ClientConnection,
    quit_received: bool,
}

/// The mathematical value of a [`Client`].
pub struct ClientView {
    pub name: Seq<char>,
    pub connection: ClientConnectionView,
    pub quit_received: bool,
}

impl ClientView {
    /// A client as it is made: handshaking, and not about to quit.
    pub open spec fn fresh(name: Seq<char>, address: Seq<char>, port: int) -> Self {
        ClientView {
            name,
            connection: ClientConnectionView::fresh(address, port),
            quit_received: false,
        }
    }

    /// One tick: the connection ticks, and a connection that has failed makes
    /// the client quit. The wish to quit is never taken back.
    pub open spec fn tick(self, events: Seq<NetEventView>, delta: nat) -> Self {
        let connection = self.connection.tick(events, delta);
        ClientView {
            connection,
            quit_received: self.quit_received || connection.failure() is Some,
            ..self
        }
    }
}

impl View for Client {
    type V = ClientView;

    closed spec fn view(&self) -> ClientView {
        ClientView {
            name: self.client_name@,
            connection: self.connection@,
            quit_received: self.quit_received,
        }
    }
}

impl Client {
    /// A client named `client_name` that opens a session towards `address`
    /// and `port`.
    pub fn new(client_name: String, address: String, port: i32) -> (client: Self)
        ensures
            client@ == ClientView::fresh(client_name@, address@, port as int),
    {
        Client { client_name, connection: ClientConnection::new(address, port), quit_received: false }
    }

    /// Gives the client another name.
    pub fn change_name(&mut self, new_client_name: String)
        ensures
            final(self)@ == (ClientView { name: new_client_name@, ..old(self)@ }),
    {
        self.client_name = new_client_name;
    }

    /// The client's name.
    pub fn get_name(&self) -> (name: String)
        ensures
            name@ == self@.name,
    {
        self.client_name.clone()
    }

    /// Tells the client to quit.
    pub fn quit(&mut self)
        ensures
            final(self)@ == (ClientView { quit_received: true, ..old(self)@ }),
    {
        self.quit_received = true;
    }

    /// Whether the client wants to quit.
    pub fn should_quit(&self) -> (quits: bool)
        ensures
            quits == self@.quit_received,
    {
        self.quit_received
    }

    /// The connection, to look at.
    pub fn connection(&self) -> (connection: &ClientConnection)
        ensures
            connection@ == self@.connection,
    {
        &self.connection
    }

    /// One tick of the client: `events` is what the transport had queued, in
    /// order of arrival, and `delta` the nanoseconds since the tick before.
    /// The connection is fed whatever state it is in. A failure of the
    /// connection is returned and makes the client want to quit.
    pub fn on_tick(&mut self, events: &[NetEvent], delta: u64) -> (outcome: Result<
        (),
        SessionError,
    >)
        ensures
            final(self)@ == old(self)@.tick(events.deep_view(), delta as nat),
            outcome == final(self)@.connection.outcome(),
    {
        let outcome = self.connection.receive(events, delta);
        if outcome.is_err() {
            self.quit_received = true;
        }
        outcome
    }

    /// Hands over what waits to be sent to the server, oldest first, and
    /// leaves the outbox empty.
    pub fn take_outbound(&mut self) -> (messages: Vec<Message>)
        ensures
            messages.deep_view() == old(self)@.connection.outbox,
            final(self)@ == (ClientView {
                connection: ClientConnectionView { outbox: Seq::empty(), ..old(self)@.connection },
                ..old(self)@
            }),
    {
        self.connection.take_outbound()
    }
}

} // verus!
