//! Verified core of a two-player, real-time rock-paper-scissors arbiter
//! that runs over an unreliable datagram transport.
//!
//! The crate holds the decision logic: matchmaking over sender addresses,
//! move parsing from datagram payloads, per-tick scoring under the cyclic
//! dominance rule, and rendering of the broadcast state line. Sockets and
//! clocks live outside; callers feed in received datagrams as plain bytes
//! and sender addresses, and send out the rendered lines.
use vstd::prelude::*;

pub mod game;
pub mod matchmaker;
pub mod session;
pub mod wire;

verus! {

/// Local port the arbiter listens on.
pub const LISTEN_PORT: u16 = 5000;

/// Scoring tick interval, in microseconds.
pub const TICK_MICROS: u64 = 500;

/// Total match duration, in seconds.
pub const MATCH_DURATION_SECS: u64 = 20;

/// Largest datagram payload the arbiter reads.
pub const MAX_DATAGRAM: usize = 128;

/// A transport endpoint, reduced to the plain values the arbiter compares:
/// the numeric address, the port, and which IP family it belongs to.
/// Two endpoints are the same sender exactly when all three fields agree.
#[derive(Clone, Copy, PartialEq, Eq, Structural, Debug)]
pub struct Addr {
    pub ip: u128,
    pub port: u16,
    pub is_v6: bool,
}

} // verus!
