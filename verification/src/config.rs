//! Transport configuration provider.
//!
//! The encrypted multiplexed transport is configured once at startup, for the
//! client role and for the server role. The values below are the contract:
//! concurrency limits, flow-control windows, the idle timeout, and the
//! early-data policy. The process shell applies them to the transport stack.

use vstd::prelude::*;

verus! {

/// Maximum concurrent bidirectional streams per connection.
pub const MAX_BIDI_STREAMS: u32 = 100;

/// Maximum concurrent unidirectional streams per connection.
pub const MAX_UNI_STREAMS: u32 = 100;

/// Per-stream receive window, in bytes (2 MiB).
pub const STREAM_RECEIVE_WINDOW: u32 = 2 * 1024 * 1024;

/// Per-connection receive window, in bytes (8 MiB).
pub const CONNECTION_RECEIVE_WINDOW: u32 = 8 * 1024 * 1024;

/// Idle timeout after which a fully idle connection is reclaimed, in seconds.
pub const IDLE_TIMEOUT_SECS: u64 = 60;

/// Maximum early-data size accepted by the server role (unlimited).
pub const MAX_EARLY_DATA_SIZE: u32 = 0xffff_ffff;

/// Tuning values shared by the client and the server transport.
#[derive(Clone, Copy, PartialEq, Eq, Structural, Debug)]
pub struct TransportTuning {
    pub max_bidi_streams: u32,
    pub max_uni_streams: u32,
    pub stream_receive_window: u32,
    pub connection_receive_window: u32,
    pub idle_timeout_secs: u64,
}

/// How the client role checks the server's certificate.
///
/// `Strict` validates the certificate chain and identity. `AcceptAny`
/// accepts any peer certificate; it removes the transport's authentication
/// guarantee and exists only for deployments that bootstrap from a
/// self-signed credential, so it must be chosen explicitly.
#[derive(Clone, Copy, PartialEq, Eq, Structural, Debug)]
pub enum PeerVerification {
    Strict,
    AcceptAny,
}

impl Default for PeerVerification {
    /// Verification defaults to the strict policy; accept-any is opt-in.
    fn default() -> (r: Self)
        ensures
            r is Strict,
    {
        PeerVerification::Strict
    }
}

/// Settings of the server-role transport.
#[derive(Clone, Copy, PartialEq, Eq, Structural, Debug)]
pub struct ServerTransportConfig {
    pub tuning: TransportTuning,
    /// The server never asks the client for a certificate.
    pub require_client_auth: bool,
    pub max_early_data_size: u32,
}

/// Settings of the client-role transport.
#[derive(Clone, Copy, PartialEq, Eq, Structural, Debug)]
pub struct ClientTransportConfig {
    pub tuning: TransportTuning,
    pub enable_early_data: bool,
    pub verification: PeerVerification,
}

/// The tuning every connection of either role is built with.
pub open spec fn spec_shared_tuning() -> TransportTuning {
    TransportTuning {
        max_bidi_streams: MAX_BIDI_STREAMS,
        max_uni_streams: MAX_UNI_STREAMS,
        stream_receive_window: STREAM_RECEIVE_WINDOW,
        connection_receive_window: CONNECTION_RECEIVE_WINDOW,
        idle_timeout_secs: IDLE_TIMEOUT_SECS,
    }
}

/// The tuning values both roles share, for symmetry of the two directions.
pub fn transport_tuning() -> (t: TransportTuning)
    ensures
        t == spec_shared_tuning(),
{
    TransportTuning {
        max_bidi_streams: MAX_BIDI_STREAMS,
        max_uni_streams: MAX_UNI_STREAMS,
        stream_receive_window: STREAM_RECEIVE_WINDOW,
        connection_receive_window: CONNECTION_RECEIVE_WINDOW,
        idle_timeout_secs: IDLE_TIMEOUT_SECS,
    }
}

/// Server-role settings: shared tuning, no client authentication, and
/// unlimited early data.
pub fn server_transport_config() -> (c: ServerTransportConfig)
    ensures
        c.tuning == spec_shared_tuning(),
        !c.require_client_auth,
        c.max_early_data_size == MAX_EARLY_DATA_SIZE,
{
    ServerTransportConfig {
        tuning: transport_tuning(),
        require_client_auth: false,
        max_early_data_size: MAX_EARLY_DATA_SIZE,
    }
}

/// Client-role settings: shared tuning, early data enabled, and the chosen
/// peer-verification policy.
pub fn client_transport_config(verification: PeerVerification) -> (c: ClientTransportConfig)
    ensures
        c.tuning == spec_shared_tuning(),
        c.enable_early_data,
        c.verification == verification,
{
    ClientTransportConfig {
        tuning: transport_tuning(),
        enable_early_data: true,
        verification,
    }
}

} // verus!
