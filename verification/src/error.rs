//! What can go wrong in a session.

use vstd::prelude::*;
use vstd::string::*;

verus! {

/// The failures of the session layer. None of them aborts anything: each is
/// handed to the caller, who decides.
#[derive(Debug, Clone, Copy, PartialEq, Eq, Structural)]
pub enum SessionError {
    /// No handshake answer came within the timeout.
    HandshakeTimeout,
    /// No answer to a ping came within the timeout.
    PingTimeout,
    /// A payload that is no token. Dropped, never fatal.
    MalformedMessage,
    /// The configured address and port cannot name a socket.
    TransportUnavailable,
    /// A shutdown request from a peer the policy does not accept.
    UnauthorizedShutdown,
}

impl SessionError {
    /// The text that [`SessionError::describe`] gives.
    pub open spec fn description(self) -> Seq<char> {
        match self {
            SessionError::HandshakeTimeout => "lost connection to server"@,
            SessionError::PingTimeout => "lost connection to server"@,
            SessionError::MalformedMessage => "malformed message dropped"@,
            SessionError::TransportUnavailable => "transport unavailable"@,
            SessionError::UnauthorizedShutdown => "unauthorized shutdown request"@,
        }
    }

    /// What to tell the user. Both timeouts read the same to them.
    pub fn describe(&self) -> (text: String)
        ensures
            text@ == self.description(),
    {
        match self {
            SessionError::HandshakeTimeout => String::from_str("lost connection to server"),
            SessionError::PingTimeout => String::from_str("lost connection to server"),
            SessionError::MalformedMessage => String::from_str("malformed message dropped"),
            SessionError::TransportUnavailable => String::from_str("transport unavailable"),
            SessionError::UnauthorizedShutdown => String::from_str("unauthorized shutdown request"),
        }
    }
}

} // verus!
