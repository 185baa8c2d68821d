//! The address and port that a server listens on when nothing else is said,
//! and the test that a configured port can name a socket at all.

use vstd::prelude::*;
use vstd::string::*;
use crate::error::SessionError;
use crate::text::{socket_name, socket_text};

verus! {

/// The port that a server listens on when none is given.
pub const DEFAULT_PORT: i32 = 30_001;

/// The address that a server listens on when none is given.
pub const DEFAULT_ADDRESS: &'static str = "127.0.0.1";

/// Whether a configured port is one that a socket can have.
pub open spec fn is_socket_port(port: int) -> bool {
    0 <= port <= 65_535
}

/// The port as a socket takes it. A number that no socket can have is
/// reported as `TransportUnavailable`, before anything is bound or connected.
pub fn checked_port(port: i32) -> (checked: Result<u16, SessionError>)
    ensures
        is_socket_port(port as int) ==> checked == Ok::<u16, SessionError>(port as u16),
        !is_socket_port(port as int) ==> checked == Err::<u16, SessionError>(
            SessionError::TransportUnavailable,
        ),
{
    if 0 <= port && port <= 65_535 {
        Ok(port as u16)
    } else {
        Err(SessionError::TransportUnavailable)
    }
}

/// Where a server listens.
pub struct Connection {
    address: String,
    port: i32,
}

impl Connection {
    /// The local address `127.0.0.1` and the port 30001.
    pub fn new() -> (connection: Self)
        ensures
            connection.address_text() == DEFAULT_ADDRESS@,
            connection.port_number() == DEFAULT_PORT,
    {
        Connection { address: String::from_str(DEFAULT_ADDRESS), port: DEFAULT_PORT }
    }

    /// The address, as text.
    pub closed spec fn address_text(&self) -> Seq<char> {
        self.address@
    }

    /// The port.
    pub closed spec fn port_number(&self) -> int {
        self.port as int
    }

    /// The address.
    pub fn address(&self) -> (address: &String)
        ensures
            address@ == self.address_text(),
    {
        &self.address
    }

    /// The port.
    pub fn port(&self) -> (port: i32)
        ensures
            port == self.port_number(),
    {
        self.port
    }

    /// Address and port as one socket name.
    pub fn get_socket(&self) -> (socket: String)
        ensures
            socket@ == socket_name(self.address_text(), self.port_number()),
    {
        socket_text(self.address.as_str(), self.port)
    }
}

} // verus!
