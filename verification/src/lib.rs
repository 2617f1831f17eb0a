//! QuicTor: a pluggable-transport tunnel that pairs a local SOCKS5 proxy
//! with an encrypted multiplexed transport.
//!
//! This crate holds the verified core: the SOCKS5 handshake engine and its
//! byte-level codec, the bridge-session accounting state machine, the
//! bridge-address selection policy, the transport configuration parameters,
//! and the pluggable-transport mode and environment-string parsing. The
//! surrounding process (sockets, the QUIC endpoint, task spawning) drives
//! these components and performs the I/O they decide on.

use vstd::prelude::*;

pub mod bridge;
pub mod config;
pub mod policy;
pub mod pt;
pub mod session;
pub mod socks5;

verus! {

/// Crate version reported by the tool.
pub const VERSION: &'static str = "0.1.0";

/// Default port of the remote transport endpoint.
pub const DEFAULT_PORT: u16 = 4433;

} // verus!
