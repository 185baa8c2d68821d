//! The networked session layer of a voxel game engine and the fixed-rate
//! scheduler that drives it.
//!
//! Everything here is a pure, deterministic state machine: the caller owns the
//! socket, the clock and the sleep, hands in what arrived and how much time has
//! passed, and sends what the session asks for.

pub mod codec;
pub mod endpoint;
pub mod error;
pub mod text;
pub mod connection;

pub mod client_connection;
pub mod client_laws;
pub mod client;

pub mod registry;
pub mod server_connection;
pub mod server;
pub mod server_laws;

pub mod rate;
pub mod delta_reporter;
pub mod command_line;
pub mod game;
pub mod game_laws;

pub mod game_files;
pub mod key_event;
