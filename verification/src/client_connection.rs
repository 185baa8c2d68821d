//! The client's side of a session: handshake, keepalive and the two
//! timeouts, as a state machine that is fed once per tick.

use vstd::prelude::*;
use crate::codec::{decode, Message, MessageView};
use crate::endpoint::{carries, reaction_outcome, NetEvent, NetEventView};
use crate::connection::{checked_port, is_socket_port};
use crate::error::SessionError;
use crate::text::{socket_name, socket_text};

verus! {

/// How long a handshake or a ping may stay unanswered, in nanoseconds.
pub const TIMEOUT_NANOS: u64 = 3_000_000_000;

/// How long a connected client waits after an answer before it pings again,
/// in nanoseconds.
pub const PING_INTERVAL_NANOS: u64 = 3_000_000_000;

/// Where a client session stands.
#[derive(Debug, Clone, Copy, PartialEq, Eq, Structural)]
pub enum ConnectionState {
    /// The handshake was never answered. Final.
    Disconnected,
    /// The handshake is sent and not yet answered.
    Handshaking,
    /// The server answered the handshake.
    Connected,
    /// A ping was never answered. Final.
    TimedOut,
}

/// The client's end of a session. It owns no socket: what it wants sent
/// collects in an outbox, and what arrived is handed to [`ClientConnection::receive`].
pub struct ClientConnection {
    address: String,
    port: i32,
    state: ConnectionState,
    handshake_elapsed: u64,
    ping_elapsed: u64,
    ping_outstanding: bool,
    outbox: Vec<Message>,
}

/// The mathematical value of a [`ClientConnection`]. Times are in nanoseconds.
pub struct ClientConnectionView {
    pub address: Seq<char>,
    pub port: int,
    pub state: ConnectionState,
    /// Time spent waiting for the handshake answer.
    pub handshake_elapsed: nat,
    /// Time since the last answer while no ping is outstanding, and time since
    /// the ping while one is.
    pub ping_elapsed: nat,
    pub ping_outstanding: bool,
    /// Messages waiting to be sent to the server, oldest first.
    pub outbox: Seq<MessageView>,
}

/// One tick as a session sees it: what was queued, in order of arrival, and
/// the time since the tick before.
pub struct Tick {
    pub events: Seq<NetEventView>,
    pub delta: nat,
}

/// Whether no event of `events` carries `message`.
pub open spec fn silent_of(events: Seq<NetEventView>, message: MessageView) -> bool {
    forall|i: int| 0 <= i < events.len() ==> !carries(#[trigger] events[i], message)
}

/// Whether no event of any tick carries `message`.
pub open spec fn ticks_silent_of(ticks: Seq<Tick>, message: MessageView) -> bool {
    forall|k: int| 0 <= k < ticks.len() ==> silent_of((#[trigger] ticks[k]).events, message)
}

/// The time that a run of ticks covers.
pub open spec fn total_delta(ticks: Seq<Tick>) -> nat
    decreases ticks.len(),
{
    if ticks.len() == 0 {
        0
    } else {
        total_delta(ticks.drop_last()) + ticks.last().delta
    }
}

impl ClientConnectionView {
    /// A session as it is made: the handshake is in the outbox and its clock
    /// starts at zero.
    pub open spec fn fresh(address: Seq<char>, port: int) -> Self {
        ClientConnectionView {
            address,
            port,
            state: ConnectionState::Handshaking,
            handshake_elapsed: 0,
            ping_elapsed: 0,
            ping_outstanding: false,
            outbox: seq![MessageView::Handshake],
        }
    }

    /// The session after one event. Only two things move it: the handshake
    /// answer while handshaking, and the ping answer while a ping is out.
    /// Whoever the sender is, and whatever else arrives, nothing changes.
    pub open spec fn react(self, event: NetEventView) -> Self {
        if carries(event, MessageView::HandshakeAck) && self.state == ConnectionState::Handshaking {
            ClientConnectionView {
                state: ConnectionState::Connected,
                handshake_elapsed: 0,
                ping_elapsed: 0,
                ping_outstanding: false,
                ..self
            }
        } else if carries(event, MessageView::PingAck) && self.state == ConnectionState::Connected
            && self.ping_outstanding {
            ClientConnectionView {
                handshake_elapsed: 0,
                ping_elapsed: 0,
                ping_outstanding: false,
                ..self
            }
        } else {
            self
        }
    }

    /// The session after a queue of events, first come first.
    pub open spec fn react_all(self, events: Seq<NetEventView>) -> Self
        decreases events.len(),
    {
        if events.len() == 0 {
            self
        } else {
            self.react_all(events.drop_last()).react(events.last())
        }
    }

    /// The handshake clock after `delta` more nanoseconds: it runs only while
    /// handshaking, and on reaching the timeout the session is disconnected.
    pub open spec fn check_handshake(self, delta: nat) -> Self {
        if self.state != ConnectionState::Handshaking {
            self
        } else if self.handshake_elapsed + delta >= TIMEOUT_NANOS {
            ClientConnectionView { state: ConnectionState::Disconnected, ..self }
        } else {
            ClientConnectionView { handshake_elapsed: self.handshake_elapsed + delta, ..self }
        }
    }

    /// The keepalive after `delta` more nanoseconds, for a connected session.
    /// With a ping out, reaching the timeout ends the session. With none out,
    /// reaching the interval sends one and restarts the clock.
    pub open spec fn do_ping_timeout_logic(self, delta: nat) -> Self {
        if self.state != ConnectionState::Connected {
            self
        } else if self.ping_outstanding {
            if self.ping_elapsed + delta >= TIMEOUT_NANOS {
                ClientConnectionView { state: ConnectionState::TimedOut, ..self }
            } else {
                ClientConnectionView { ping_elapsed: self.ping_elapsed + delta, ..self }
            }
        } else {
            if self.ping_elapsed + delta >= PING_INTERVAL_NANOS {
                ClientConnectionView {
                    ping_elapsed: 0,
                    ping_outstanding: true,
                    outbox: self.outbox.push(MessageView::PingRequest),
                    ..self
                }
            } else {
                ClientConnectionView { ping_elapsed: self.ping_elapsed + delta, ..self }
            }
        }
    }

    /// Both clocks after `delta` more nanoseconds.
    pub open spec fn advance(self, delta: nat) -> Self {
        self.check_handshake(delta).do_ping_timeout_logic(delta)
    }

    /// One tick: first every queued event, then the clocks, so that an answer
    /// that arrived in a tick always counts before that tick's timeout.
    pub open spec fn tick(self, events: Seq<NetEventView>, delta: nat) -> Self {
        self.react_all(events).advance(delta)
    }

    /// The session after a run of ticks.
    pub open spec fn run(self, ticks: Seq<Tick>) -> Self
        decreases ticks.len(),
    {
        if ticks.len() == 0 {
            self
        } else {
            self.run(ticks.drop_last()).tick(ticks.last().events, ticks.last().delta)
        }
    }

    /// The failure that a session in this state has met, if any.
    pub open spec fn failure(self) -> Option<SessionError> {
        match self.state {
            ConnectionState::Disconnected => Some(SessionError::HandshakeTimeout),
            ConnectionState::TimedOut => Some(SessionError::PingTimeout),
            _ => None,
        }
    }

    /// What a tick reports: the failure, or success while there is none.
    pub open spec fn outcome(self) -> Result<(), SessionError> {
        match self.failure() {
            Some(error) => Err(error),
            None => Ok(()),
        }
    }
}

impl View for ClientConnection {
    type V = ClientConnectionView;

    closed spec fn view(&self) -> ClientConnectionView {
        ClientConnectionView {
            address: self.address@,
            port: self.port as int,
            state: self.state,
            handshake_elapsed: self.handshake_elapsed as nat,
            ping_elapsed: self.ping_elapsed as nat,
            ping_outstanding: self.ping_outstanding,
            outbox: self.outbox.deep_view(),
        }
    }
}

impl ClientConnection {
    /// Opens a session towards `address` and `port`: the handshake goes into
    /// the outbox at once.
    pub fn new(address: String, port: i32) -> (connection: Self)
        ensures
            connection@ == ClientConnectionView::fresh(address@, port as int),
    {
        let mut outbox: Vec<Message> = Vec::new();
        outbox.push(Message::Handshake);
        let connection = ClientConnection {
            address,
            port,
            state: ConnectionState::Handshaking,
            handshake_elapsed: 0,
            ping_elapsed: 0,
            ping_outstanding: false,
            outbox,
        };
        assert(connection.outbox.deep_view() =~= seq![MessageView::Handshake]);
        connection
    }

    /// Whether the server has answered the handshake and the session lives.
    pub fn is_connected(&self) -> (connected: bool)
        ensures
            connected == (self@.state == ConnectionState::Connected),
    {
        self.state == ConnectionState::Connected
    }

    /// Where the session stands.
    pub fn state(&self) -> (state: ConnectionState)
        ensures
            state == self@.state,
    {
        self.state
    }

    /// Nanoseconds spent waiting for the handshake answer.
    pub fn handshake_elapsed(&self) -> (elapsed: u64)
        ensures
            elapsed == self@.handshake_elapsed,
    {
        self.handshake_elapsed
    }

    /// Nanoseconds on the keepalive clock.
    pub fn ping_elapsed(&self) -> (elapsed: u64)
        ensures
            elapsed == self@.ping_elapsed,
    {
        self.ping_elapsed
    }

    /// Whether a ping is sent and not yet answered.
    pub fn ping_outstanding(&self) -> (outstanding: bool)
        ensures
            outstanding == self@.ping_outstanding,
    {
        self.ping_outstanding
    }

    /// Changes the address that the session names. The session itself goes on.
    pub fn set_address(&mut self, new_address: String)
        ensures
            final(self)@ == (ClientConnectionView { address: new_address@, ..old(self)@ }),
    {
        self.address = new_address;
    }

    /// Changes the port that the session names. The session itself goes on.
    pub fn set_port(&mut self, new_port: i32)
        ensures
            final(self)@ == (ClientConnectionView { port: new_port as int, ..old(self)@ }),
    {
        self.port = new_port;
    }

    /// Address and port as one socket name.
    pub fn get_socket(&self) -> (socket: String)
        ensures
            socket@ == socket_name(self@.address, self@.port),
    {
        socket_text(self.address.as_str(), self.port)
    }

    /// The port as a socket takes it, or `TransportUnavailable` where the
    /// configured number is one that no socket can have.
    pub fn socket_port(&self) -> (checked: Result<u16, SessionError>)
        ensures
            is_socket_port(self@.port) ==> checked == Ok::<u16, SessionError>(self@.port as u16),
            !is_socket_port(self@.port) ==> checked == Err::<u16, SessionError>(
                SessionError::TransportUnavailable,
            ),
    {
        checked_port(self.port)
    }

    /// Hands over what waits to be sent to the server, oldest first, and
    /// leaves the outbox empty.
    pub fn take_outbound(&mut self) -> (messages: Vec<Message>)
        ensures
            messages.deep_view() == old(self)@.outbox,
            final(self)@ == (ClientConnectionView { outbox: Seq::empty(), ..old(self)@ }),
    {
        let mut messages: Vec<Message> = Vec::new();
        std::mem::swap(&mut self.outbox, &mut messages);
        assert(self.outbox.deep_view() =~= Seq::<MessageView>::empty());
        messages
    }

    /// Folds one transport event into the session. A payload that is no token
    /// is reported and changes nothing; so does nothing else that arrives
    /// out of turn, silently.
    pub fn event_reaction(&mut self, event: NetEvent) -> (outcome: Result<(), SessionError>)
        ensures
            final(self)@ == old(self)@.react(event@),
            outcome == reaction_outcome(event@),
    {
        self.react_to(&event)
    }

    fn react_to(&mut self, event: &NetEvent) -> (outcome: Result<(), SessionError>)
        ensures
            final(self)@ == old(self)@.react(event@),
            outcome == reaction_outcome(event@),
    {
        match event {
            NetEvent::Message(_, payload) => {
                match decode(payload.as_slice()) {
                    Message::HandshakeAck => {
                        if self.state == ConnectionState::Handshaking {
                            self.state = ConnectionState::Connected;
                            self.handshake_elapsed = 0;
                            self.ping_elapsed = 0;
                            self.ping_outstanding = false;
                        }
                        Ok(())
                    },
                    Message::PingAck => {
                        if self.state == ConnectionState::Connected && self.ping_outstanding {
                            self.handshake_elapsed = 0;
                            self.ping_elapsed = 0;
                            self.ping_outstanding = false;
                        }
                        Ok(())
                    },
                    Message::Unknown(_) => Err(SessionError::MalformedMessage),
                    _ => Ok(()),
                }
            },
            _ => Ok(()),
        }
    }

    fn check_handshake(&mut self, delta: u64)
        ensures
            final(self)@ == old(self)@.check_handshake(delta as nat),
    {
        if self.state == ConnectionState::Handshaking {
            if self.handshake_elapsed >= TIMEOUT_NANOS || delta >= TIMEOUT_NANOS
                - self.handshake_elapsed {
                self.state = ConnectionState::Disconnected;
            } else {
                self.handshake_elapsed = self.handshake_elapsed + delta;
            }
        }
    }

    fn do_ping_timeout_logic(&mut self, delta: u64)
        ensures
            final(self)@ == old(self)@.do_ping_timeout_logic(delta as nat),
    {
        if self.state == ConnectionState::Connected {
            if self.ping_outstanding {
                if self.ping_elapsed >= TIMEOUT_NANOS || delta >= TIMEOUT_NANOS
                    - self.ping_elapsed {
                    self.state = ConnectionState::TimedOut;
                } else {
                    self.ping_elapsed = self.ping_elapsed + delta;
                }
            } else {
                if self.ping_elapsed >= PING_INTERVAL_NANOS || delta >= PING_INTERVAL_NANOS
                    - self.ping_elapsed {
                    self.ping_elapsed = 0;
                    self.ping_outstanding = true;
                    self.outbox.push(Message::PingRequest);
                    assert(self.outbox.deep_view() =~= old(self).outbox.deep_view().push(
                        MessageView::PingRequest,
                    ));
                } else {
                    self.ping_elapsed = self.ping_elapsed + delta;
                }
            }
        }
    }

    /// One tick of the session: `events` is what the transport had queued, in
    /// order of arrival, and `delta` the nanoseconds since the tick before.
    /// Every event is folded in before the clocks move. A session that has
    /// failed reports its failure, now and at every later tick.
    pub fn receive(&mut self, events: &[NetEvent], delta: u64) -> (outcome: Result<
        (),
        SessionError,
    >)
        ensures
            final(self)@ == old(self)@.tick(events.deep_view(), delta as nat),
            outcome == final(self)@.outcome(),
    {
        let ghost queued = events.deep_view();
        let mut i: usize = 0;
        while i < events.len()
            invariant
                i <= events.len(),
                queued == events.deep_view(),
                self@ == old(self)@.react_all(queued.take(i as int)),
            decreases events.len() - i,
        {
            let _ = self.react_to(&events[i]);
            proof {
                assert(queued.take(i + 1).drop_last() =~= queued.take(i as int));
                assert(queued.take(i + 1).last() == events[i as int]@);
            }
            i += 1;
        }
        proof {
            assert(queued.take(i as int) =~= queued);
        }
        self.check_handshake(delta);
        self.do_ping_timeout_logic(delta);
        match self.state {
            ConnectionState::Disconnected => Err(SessionError::HandshakeTimeout),
            ConnectionState::TimedOut => Err(SessionError::PingTimeout),
            _ => Ok(()),
        }
    }
}

} // verus!
