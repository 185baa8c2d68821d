//! The server: its connection, and the decision whether a request to shut
//! down is honoured.

use vstd::prelude::*;
use crate::endpoint::{EndpointId, NetEvent, NetEventView};
use crate::error::SessionError;
use crate::server_connection::{Reply, ServerConnection, ServerConnectionView};

verus! {

/// Whose request to shut down the server honours.
#[derive(Debug, Clone, Copy, PartialEq, Eq, Structural)]
pub enum ShutdownPolicy {
    /// Anyone's. A single datagram from anywhere stops the server.
    AcceptAny,
    /// Only that of a peer in the table of known clients.
    KnownClientsOnly,
}

/// Whether `policy` honours a request of `peer`, given the known clients.
pub open spec fn authorizes(
    policy: ShutdownPolicy,
    clients: Map<EndpointId, Seq<char>>,
    peer: EndpointId,
) -> bool {
    match policy {
        ShutdownPolicy::AcceptAny => true,
        ShutdownPolicy::KnownClientsOnly => clients.contains_key(peer),
    }
}

/// Whether `policy` honours the request of at least one of `requesters`.
pub open spec fn any_authorized(
    policy: ShutdownPolicy,
    clients: Map<EndpointId, Seq<char>>,
    requesters: Seq<EndpointId>,
) -> bool {
    exists|i: int|
        0 <= i < requesters.len() && authorizes(policy, clients, #[trigger] requesters[i])
}

/// A server: the connection, the policy, and whether a shutdown is approved.
pub struct Server {
    connection: ServerConnection,
    shutdown_approved: bool,
    policy: ShutdownPolicy,
}

/// The mathematical value of a [`Server`].
pub struct ServerView {
    pub connection: ServerConnectionView,
    pub shutdown_approved: bool,
    pub policy: ShutdownPolicy,
}

impl ServerView {
    /// A server that has heard nothing yet.
    pub open spec fn fresh(address: Seq<char>, port: int, policy: ShutdownPolicy) -> Self {
        ServerView {
            connection: ServerConnectionView::fresh(address, port),
            shutdown_approved: false,
            policy,
        }
    }

    /// The server after the queue of shutdown requests was judged: the queue
    /// is empty, and the shutdown is approved if it was before or if the
    /// policy honours one of the requests. Approval is never taken back.
    pub open spec fn check_shutdown_requests(self) -> Self {
        ServerView {
            connection: ServerConnectionView {
                shutdown_requests: Seq::empty(),
                ..self.connection
            },
            shutdown_approved: self.shutdown_approved || any_authorized(
                self.policy,
                self.connection.clients,
                self.connection.shutdown_requests,
            ),
            ..self
        }
    }

    /// One tick: a pass over the queued events, then the judgement of the
    /// shutdown requests, with the table as the pass left it.
    pub open spec fn tick(self, events: Seq<NetEventView>) -> Self {
        (ServerView {
            connection: self.connection.react_all(events),
            ..self
        }).check_shutdown_requests()
    }
}

impl View for Server {
    type V = ServerView;

    closed spec fn view(&self) -> ServerView {
        ServerView {
            connection: self.connection@,
            shutdown_approved: self.shutdown_approved,
            policy: self.policy,
        }
    }
}

impl Server {
    /// A server for `address` and `port` that judges shutdown requests by
    /// `policy`.
    pub fn new(address: String, port: i32, policy: ShutdownPolicy) -> (server: Self)
        ensures
            server@ == ServerView::fresh(address@, port as int, policy),
    {
        Server { connection: ServerConnection::new(address, port), shutdown_approved: false, policy }
    }

    /// Whether a request to shut down has been honoured.
    pub fn shutdown_is_approved(&self) -> (approved: bool)
        ensures
            approved == self@.shutdown_approved,
    {
        self.shutdown_approved
    }

    /// The policy that requests are judged by.
    pub fn policy(&self) -> (policy: ShutdownPolicy)
        ensures
            policy == self@.policy,
    {
        self.policy
    }

    /// The connection, to look at.
    pub fn connection(&self) -> (connection: &ServerConnection)
        ensures
            connection@ == self@.connection,
    {
        &self.connection
    }

    /// Files `peer` under `name` in the table of known clients.
    pub fn register(&mut self, peer: EndpointId, name: String)
        ensures
            final(self)@ == (ServerView {
                connection: ServerConnectionView {
                    clients: old(self)@.connection.clients.insert(peer, name@),
                    ..old(self)@.connection
                },
                ..old(self)@
            }),
    {
        self.connection.register(peer, name);
    }

    /// Judges one requester: fine if the policy honours it, and
    /// `UnauthorizedShutdown` if not.
    pub fn authorize(&self, peer: EndpointId) -> (verdict: Result<(), SessionError>)
        ensures
            authorizes(self@.policy, self@.connection.clients, peer) ==> verdict == Ok::<
                (),
                SessionError,
            >(()),
            !authorizes(self@.policy, self@.connection.clients, peer) ==> verdict == Err::<
                (),
                SessionError,
            >(SessionError::UnauthorizedShutdown),
    {
        let honoured = match self.policy {
            ShutdownPolicy::AcceptAny => true,
            ShutdownPolicy::KnownClientsOnly => self.connection.is_known(peer),
        };
        if honoured {
            Ok(())
        } else {
            Err(SessionError::UnauthorizedShutdown)
        }
    }

    /// Drains the queue of shutdown requests and judges each entry. Returns
    /// the entries, oldest first, so that the caller can tell who asked.
    pub fn check_shutdown_requests(&mut self) -> (requesters: Vec<EndpointId>)
        ensures
            requesters@ == old(self)@.connection.shutdown_requests,
            final(self)@ == old(self)@.check_shutdown_requests(),
    {
        let requesters = self.connection.take_shutdown_requests();
        let ghost clients = self@.connection.clients;
        let mut approved = false;
        let mut i: usize = 0;
        while i < requesters.len()
            invariant
                i <= requesters.len(),
                clients == self@.connection.clients,
                self@ == (ServerView {
                    connection: ServerConnectionView {
                        shutdown_requests: Seq::empty(),
                        ..old(self)@.connection
                    },
                    ..old(self)@
                }),
                approved == any_authorized(self@.policy, clients, requesters@.take(i as int)),
            decreases requesters.len() - i,
        {
            let verdict = self.authorize(requesters[i]);
            proof {
                let seen = requesters@.take(i as int);
                let next = requesters@.take(i + 1);
                if any_authorized(self@.policy, clients, seen) {
                    let j = choose|j: int|
                        0 <= j < seen.len() && authorizes(self@.policy, clients, #[trigger] seen[j]);
                    assert(next[j] == seen[j]);
                }
                if authorizes(self@.policy, clients, requesters@[i as int]) {
                    assert(next[i as int] == requesters@[i as int]);
                }
                if any_authorized(self@.policy, clients, next) {
                    let j = choose|j: int|
                        0 <= j < next.len() && authorizes(self@.policy, clients, #[trigger] next[j]);
                    if j < i {
                        assert(seen[j] == next[j]);
                    }
                }
            }
            if verdict.is_ok() {
                approved = true;
            }
            i += 1;
        }
        proof {
            assert(requesters@.take(i as int) =~= requesters@);
        }
        if approved {
            self.shutdown_approved = true;
        }
        requesters
    }

    /// One tick of the server: a pass over `events`, which is what the
    /// transport had queued, in order of arrival; then the judgement of the
    /// shutdown requests. Returns who asked for a shutdown since the tick
    /// before, oldest first. The server keeps no clock: `delta` is taken so
    /// that both roles tick alike, and changes nothing.
    pub fn on_tick(&mut self, events: &[NetEvent], delta: u64) -> (requesters: Vec<EndpointId>)
        ensures
            final(self)@ == old(self)@.tick(events.deep_view()),
            requesters@ == old(self)@.connection.react_all(
                events.deep_view(),
            ).shutdown_requests,
    {
        self.connection.receive(events);
        self.check_shutdown_requests()
    }

    /// Hands over the answers that wait to be sent, oldest first, and leaves
    /// the outbox empty.
    pub fn take_outbound(&mut self) -> (replies: Vec<Reply>)
        ensures
            replies.deep_view() == old(self)@.connection.outbox,
            final(self)@ == (ServerView {
                connection: ServerConnectionView { outbox: Seq::empty(), ..old(self)@.connection },
                ..old(self)@
            }),
    {
        self.connection.take_outbound()
    }
}

} // verus!
