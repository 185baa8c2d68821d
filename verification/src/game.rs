//! The scheduler: one turn of the fixed-rate loop, as a step from the time
//! and what the transport had queued to what to send and whether to sleep.
//! The loop itself, with its clock and its sleep, belongs to the caller.

use vstd::prelude::*;
use crate::client::{Client, ClientView};
use crate::client_connection::ClientConnectionView;
use crate::codec::{encode, encode_message, MessageView};
use crate::command_line::CommandLineInterface;
use crate::delta_reporter::{elapsed_between, DeltaReporter};
use crate::endpoint::{count_malformed, malformed_among, EndpointId, NetEvent, NetEventView};
use crate::error::SessionError;
use crate::rate::{Rate, DEFAULT_FRAMES_PER_SECOND, DEFAULT_TICKS_PER_SECOND, NANOS_PER_SECOND};
use crate::server::{Server, ServerView, ShutdownPolicy};
use crate::server_connection::{ReplyView, ServerConnectionView};

verus! {

/// Whether the loop sleeps out the rest of each period.
#[derive(Debug, Clone, Copy, PartialEq, Eq, Structural)]
pub enum Pacing {
    /// Always pace to the target rate.
    Paced,
    /// Never pace: turn as fast as possible. A server paces all the same.
    Unpaced,
}

/// The session that a game runs: a client's or a server's, never both.
pub enum Session {
    Client(Client),
    Server(Server),
}

/// The mathematical value of a [`Session`].
pub enum SessionView {
    Client(ClientView),
    Server(ServerView),
}

impl View for Session {
    type V = SessionView;

    open spec fn view(&self) -> SessionView {
        match self {
            Session::Client(client) => SessionView::Client(client@),
            Session::Server(server) => SessionView::Server(server@),
        }
    }
}

/// A payload on its way out. `to` names the peer for a server; a client has
/// one peer only, its server, and names none.
#[derive(Debug, Clone, PartialEq, Eq)]
pub struct Datagram {
    pub to: Option<EndpointId>,
    pub payload: Vec<u8>,
}

/// The mathematical value of a [`Datagram`].
pub struct DatagramView {
    pub to: Option<EndpointId>,
    pub payload: Seq<u8>,
}

impl View for Datagram {
    type V = DatagramView;

    open spec fn view(&self) -> DatagramView {
        DatagramView { to: self.to, payload: self.payload@ }
    }
}

impl DeepView for Datagram {
    type V = DatagramView;

    open spec fn deep_view(&self) -> DatagramView {
        self@
    }
}

/// What one turn of the loop tells the caller.
pub struct TickReport {
    /// Whether to sleep out the rest of the period before the next turn.
    pub pace: bool,
    /// The failure of the client's connection, if it has failed.
    pub failure: Option<SessionError>,
    /// Who asked the server for a shutdown since the turn before, oldest
    /// first.
    pub shutdown_requesters: Vec<EndpointId>,
    /// How many payloads of this turn were malformed, and dropped.
    pub malformed: usize,
}

/// The game: the session, the two target rates, the clock of the last turn,
/// and the flag that ends the loop.
pub struct Game {
    should_close: bool,
    goal_frames_per_second: Rate,
    goal_ticks_per_second: Rate,
    session: Session,
    delta_reporter: DeltaReporter,
    delta: u64,
    pacing: Pacing,
}

/// The mathematical value of a [`Game`]. Times are in nanoseconds.
pub struct GameView {
    pub should_close: bool,
    pub goal_frames_per_second: nat,
    pub goal_ticks_per_second: nat,
    pub session: SessionView,
    /// The instant of the last turn.
    pub last_instant: nat,
    /// The time that the last turn measured.
    pub delta: nat,
    pub pacing: Pacing,
}

/// A client's outbox as payloads: each message encoded, none addressed.
pub open spec fn client_datagrams(outbox: Seq<MessageView>) -> Seq<DatagramView> {
    outbox.map_values(
        |message: MessageView| DatagramView { to: None, payload: encode_message(message) },
    )
}

/// A server's outbox as payloads: each answer encoded and addressed to its
/// peer.
pub open spec fn server_datagrams(outbox: Seq<ReplyView>) -> Seq<DatagramView> {
    outbox.map_values(
        |reply: ReplyView|
            DatagramView { to: Some(reply.to), payload: encode_message(reply.message) },
    )
}

impl SessionView {
    /// Whether the session wants the loop to end: a client that quits, or a
    /// server whose shutdown is approved.
    pub open spec fn wants_stop(self) -> bool {
        match self {
            SessionView::Client(client) => client.quit_received,
            SessionView::Server(server) => server.shutdown_approved,
        }
    }

    /// The session after one tick.
    pub open spec fn tick(self, events: Seq<NetEventView>, delta: nat) -> Self {
        match self {
            SessionView::Client(client) => SessionView::Client(client.tick(events, delta)),
            SessionView::Server(server) => SessionView::Server(server.tick(events)),
        }
    }

    /// The failure of a client's connection. A server has none.
    pub open spec fn failure(self) -> Option<SessionError> {
        match self {
            SessionView::Client(client) => client.connection.failure(),
            SessionView::Server(_) => None,
        }
    }

    /// The queue of shutdown requests of a server. A client has none.
    pub open spec fn shutdown_requests(self) -> Seq<EndpointId> {
        match self {
            SessionView::Client(_) => Seq::empty(),
            SessionView::Server(server) => server.connection.shutdown_requests,
        }
    }

    /// A server after its pass over `events`, before the shutdown requests
    /// are judged. A client is left as it is.
    pub open spec fn heard(self, events: Seq<NetEventView>) -> Self {
        match self {
            SessionView::Client(_) => self,
            SessionView::Server(server) => SessionView::Server(
                ServerView { connection: server.connection.react_all(events), ..server },
            ),
        }
    }

    /// What waits to be sent, as payloads.
    pub open spec fn outbound(self) -> Seq<DatagramView> {
        match self {
            SessionView::Client(client) => client_datagrams(client.connection.outbox),
            SessionView::Server(server) => server_datagrams(server.connection.outbox),
        }
    }

    /// The session with its outbox emptied.
    pub open spec fn sent(self) -> Self {
        match self {
            SessionView::Client(client) => SessionView::Client(
                ClientView {
                    connection: ClientConnectionView { outbox: Seq::empty(), ..client.connection },
                    ..client
                },
            ),
            SessionView::Server(server) => SessionView::Server(
                ServerView {
                    connection: ServerConnectionView { outbox: Seq::empty(), ..server.connection },
                    ..server
                },
            ),
        }
    }
}

impl GameView {
    /// A game as it is made from the command line: a server where that is
    /// asked for and a client otherwise, at the rates that each starts with.
    pub open spec fn fresh(
        server: bool,
        address: Seq<char>,
        port: int,
        client_name: Seq<char>,
        policy: ShutdownPolicy,
        now: nat,
    ) -> Self {
        GameView {
            should_close: false,
            goal_frames_per_second: DEFAULT_FRAMES_PER_SECOND as nat,
            goal_ticks_per_second: DEFAULT_TICKS_PER_SECOND as nat,
            session: if server {
                SessionView::Server(ServerView::fresh(address, port, policy))
            } else {
                SessionView::Client(ClientView::fresh(client_name, address, port))
            },
            last_instant: now,
            delta: 0,
            pacing: Pacing::Paced,
        }
    }

    /// Whether the game runs a server.
    pub open spec fn is_server(self) -> bool {
        self.session is Server
    }

    /// The rate that the loop is paced to: the tick rate for a server, the
    /// frame rate for a client.
    pub open spec fn target_rate(self) -> nat {
        if self.is_server() {
            self.goal_ticks_per_second
        } else {
            self.goal_frames_per_second
        }
    }

    /// The time that one turn is given, in whole nanoseconds, rounded down.
    pub open spec fn period(self) -> nat
        recommends
            self.target_rate() > 0,
    {
        NANOS_PER_SECOND as nat / self.target_rate()
    }

    /// Whether the loop sleeps out the rest of each period: when it is paced,
    /// and always for a server.
    pub open spec fn paces(self) -> bool {
        self.pacing == Pacing::Paced || self.is_server()
    }

    /// One turn of the loop at the instant `now`: the time since the last
    /// turn is measured, the session ticks with it, and the loop is to end if
    /// it was to end before or if the session now wants it to.
    pub open spec fn tick(self, now: nat, events: Seq<NetEventView>) -> Self {
        let delta = elapsed_between(self.last_instant, now);
        let session = self.session.tick(events, delta);
        GameView {
            should_close: self.should_close || session.wants_stop(),
            session,
            last_instant: now,
            delta,
            ..self
        }
    }
}

impl View for Game {
    type V = GameView;

    closed spec fn view(&self) -> GameView {
        GameView {
            should_close: self.should_close,
            goal_frames_per_second: self.goal_frames_per_second@,
            goal_ticks_per_second: self.goal_ticks_per_second@,
            session: self.session@,
            last_instant: self.delta_reporter@,
            delta: self.delta as nat,
            pacing: self.pacing,
        }
    }
}

impl Game {
    /// Makes the game that the command line asks for, at the instant `now`:
    /// a server that judges shutdown requests by `policy`, or a client, which
    /// has no use for the policy.
    pub fn new(cli: CommandLineInterface, policy: ShutdownPolicy, now: u64) -> (game: Self)
        ensures
            game@ == GameView::fresh(
                cli.server,
                cli.address@,
                cli.port as int,
                cli.client_name@,
                policy,
                now as nat,
            ),
    {
        let session = if cli.server {
            Session::Server(Server::new(cli.address, cli.port, policy))
        } else {
            Session::Client(Client::new(cli.client_name, cli.address, cli.port))
        };
        Game {
            should_close: false,
            goal_frames_per_second: Rate::default_frames(),
            goal_ticks_per_second: Rate::default_ticks(),
            session,
            delta_reporter: DeltaReporter::new(now),
            delta: 0,
            pacing: Pacing::Paced,
        }
    }

    /// The time that the last turn measured, in nanoseconds.
    pub fn get_delta(&self) -> (delta: u64)
        ensures
            delta == self@.delta,
    {
        self.delta
    }

    /// Sets the frame rate to aim for. It is the rate that a client is paced
    /// to; a server keeps it and is not moved by it. The clock of the last
    /// turn stays as it is.
    pub fn set_frame_rate_target(&mut self, new_frames_per_second_goal: Rate)
        ensures
            final(self)@ == (GameView {
                goal_frames_per_second: new_frames_per_second_goal@,
                ..old(self)@
            }),
    {
        self.goal_frames_per_second = new_frames_per_second_goal;
    }

    /// Sets the tick rate to aim for. It is the rate that a server is paced
    /// to; a client keeps it and is not moved by it. The clock of the last
    /// turn stays as it is.
    pub fn set_tick_rate_target(&mut self, new_ticks_per_second_goal: Rate)
        ensures
            final(self)@ == (GameView {
                goal_ticks_per_second: new_ticks_per_second_goal@,
                ..old(self)@
            }),
    {
        self.goal_ticks_per_second = new_ticks_per_second_goal;
    }

    /// Chooses between pacing and not pacing.
    pub fn set_pacing(&mut self, pacing: Pacing)
        ensures
            final(self)@ == (GameView { pacing, ..old(self)@ }),
    {
        self.pacing = pacing;
    }

    /// Ends the loop: from now on [`Game::should_close`] holds. This is what
    /// an interrupt from outside calls for.
    pub fn shutdown_game(&mut self)
        ensures
            final(self)@ == (GameView { should_close: true, ..old(self)@ }),
    {
        self.should_close = true;
    }

    /// Whether the loop is to end.
    pub fn should_close(&self) -> (closing: bool)
        ensures
            closing == self@.should_close,
    {
        self.should_close
    }

    /// Whether the game runs a server.
    pub fn is_server(&self) -> (server: bool)
        ensures
            server == self@.is_server(),
    {
        match &self.session {
            Session::Server(_) => true,
            Session::Client(_) => false,
        }
    }

    /// Whether the game runs a client.
    pub fn is_client(&self) -> (client: bool)
        ensures
            client == !self@.is_server(),
    {
        !self.is_server()
    }

    /// The session, to look at.
    pub fn session(&self) -> (session: &Session)
        ensures
            session@ == self@.session,
    {
        &self.session
    }

    /// The rate that the loop is paced to.
    pub fn target_rate(&self) -> (rate: Rate)
        ensures
            rate@ == self@.target_rate(),
    {
        if self.is_server() {
            self.goal_ticks_per_second
        } else {
            self.goal_frames_per_second
        }
    }

    /// The time that one turn is given, in whole nanoseconds. It is never
    /// zero.
    pub fn period_nanos(&self) -> (period: u64)
        ensures
            period == self@.period(),
            period >= 1,
    {
        self.target_rate().period_nanos()
    }

    /// Whether the loop sleeps out the rest of each period.
    pub fn paces(&self) -> (paces: bool)
        ensures
            paces == self@.paces(),
    {
        self.pacing == Pacing::Paced || self.is_server()
    }

    /// One turn of the loop. `now` is the caller's clock, in nanoseconds, and
    /// `events` what the transport had queued, in order of arrival. The
    /// report says whether to sleep, whether the client's connection has
    /// failed, and who asked the server for a shutdown.
    pub fn tick(&mut self, now: u64, events: &[NetEvent]) -> (report: TickReport)
        ensures
            final(self)@ == old(self)@.tick(now as nat, events.deep_view()),
            report.pace == final(self)@.paces(),
            report.failure == final(self)@.session.failure(),
            report.shutdown_requesters@ == old(self)@.session.heard(
                events.deep_view(),
            ).shutdown_requests(),
            report.malformed == malformed_among(events.deep_view()).len(),
    {
        let delta = self.delta_reporter.report(now);
        self.delta = delta;
        let mut failure: Option<SessionError> = None;
        let mut shutdown_requesters: Vec<EndpointId> = Vec::new();
        let mut stop = false;
        match &mut self.session {
            Session::Server(server) => {
                shutdown_requesters = server.on_tick(events, delta);
                stop = server.shutdown_is_approved();
            },
            Session::Client(client) => {
                match client.on_tick(events, delta) {
                    Ok(()) => {},
                    Err(error) => {
                        failure = Some(error);
                    },
                }
                stop = client.should_quit();
            },
        }
        if stop {
            self.should_close = true;
        }
        TickReport {
            pace: self.paces(),
            failure,
            shutdown_requesters,
            malformed: count_malformed(events),
        }
    }

    /// Hands over what waits to be sent, oldest first, each message encoded,
    /// and leaves the outbox empty.
    pub fn take_outbound(&mut self) -> (datagrams: Vec<Datagram>)
        ensures
            datagrams.deep_view() == old(self)@.session.outbound(),
            final(self)@ == (GameView { session: old(self)@.session.sent(), ..old(self)@ }),
    {
        let mut datagrams: Vec<Datagram> = Vec::new();
        match &mut self.session {
            Session::Client(client) => {
                let messages = client.take_outbound();
                let mut i: usize = 0;
                while i < messages.len()
                    invariant
                        i <= messages.len(),
                        datagrams.len() == i,
                        datagrams.deep_view() == client_datagrams(
                            messages.deep_view().take(i as int),
                        ),
                    decreases messages.len() - i,
                {
                    let ghost before = datagrams.deep_view();
                    datagrams.push(Datagram { to: None, payload: encode(&messages[i]) });
                    proof {
                        let queued = messages.deep_view();
                        let target = client_datagrams(queued.take(i + 1));
                        assert(queued[i as int] == messages[i as int]@);
                        assert forall|j: int| 0 <= j < i + 1 implies datagrams.deep_view()[j]
                            == target[j] by {
                            if j < i {
                                assert(datagrams.deep_view()[j] == before[j]);
                                assert(queued.take(i as int)[j] == queued.take(i + 1)[j]);
                            }
                        }
                        assert(datagrams.deep_view() =~= target);
                    }
                    i += 1;
                }
                proof {
                    assert(messages.deep_view().take(i as int) =~= messages.deep_view());
                }
            },
            Session::Server(server) => {
                let replies = server.take_outbound();
                let mut i: usize = 0;
                while i < replies.len()
                    invariant
                        i <= replies.len(),
                        datagrams.len() == i,
                        datagrams.deep_view() == server_datagrams(
                            replies.deep_view().take(i as int),
                        ),
                    decreases replies.len() - i,
                {
                    let ghost before = datagrams.deep_view();
                    datagrams.push(
                        Datagram { to: Some(replies[i].to), payload: encode(&replies[i].message) },
                    );
                    proof {
                        let queued = replies.deep_view();
                        let target = server_datagrams(queued.take(i + 1));
                        assert(queued[i as int] == replies[i as int]@);
                        assert forall|j: int| 0 <= j < i + 1 implies datagrams.deep_view()[j]
                            == target[j] by {
                            if j < i {
                                assert(datagrams.deep_view()[j] == before[j]);
                                assert(queued.take(i as int)[j] == queued.take(i + 1)[j]);
                            }
                        }
                        assert(datagrams.deep_view() =~= target);
                    }
                    i += 1;
                }
                proof {
                    assert(replies.deep_view().take(i as int) =~= replies.deep_view());
                }
            },
        }
        datagrams
    }
}

} // verus!
