//! What the command line configures.

use vstd::prelude::*;
use vstd::string::*;

verus! {

/// The options of a run, as plain values.
#[derive(Debug, Clone, PartialEq, Eq)]
pub struct CommandLineInterface {
    /// Run as a server.
    pub server: bool,
    /// The game that a server starts with.
    pub game: String,
    /// The address to listen on, or to connect to.
    pub address: String,
    /// The port to listen on, or to connect to.
    pub port: i32,
    /// The player's name.
    pub client_name: String,
}

impl Default for CommandLineInterface {
    /// The options of a run that was given none: a client named
    /// `singleplayer` for the game `minetest` at `127.0.0.1`, port 30001.
    fn default() -> (cli: Self)
        ensures
            !cli.server,
            cli.game@ == "minetest"@,
            cli.address@ == "127.0.0.1"@,
            cli.port == 30_001,
            cli.client_name@ == "singleplayer"@,
    {
        CommandLineInterface {
            server: false,
            game: String::from_str("minetest"),
            address: String::from_str("127.0.0.1"),
            port: 30_001,
            client_name: String::from_str("singleplayer"),
        }
    }
}

} // verus!
