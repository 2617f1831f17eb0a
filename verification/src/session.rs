//! Session orchestration decisions.
//!
//! The orchestrator's accept loops run in the process shell; the decisions
//! they turn on stand here. On the server role, each inbound encrypted
//! connection runs a stream-accept loop: a closure by the application or a
//! timeout ends that loop quietly, any other accept fault ends it as an
//! error worth logging, and in neither case is it retried — the remote peer
//! must reconnect. Per-connection and per-stream faults never outlive their
//! own task.

use vstd::prelude::*;

verus! {

/// What one attempt to accept a stream on an inbound connection observed.
#[derive(Clone, Copy, PartialEq, Eq, Structural, Debug)]
pub enum StreamAcceptEvent {
    /// A stream pair was accepted.
    StreamReady,
    /// The application on the remote side closed the connection.
    ApplicationClosed,
    /// The connection timed out.
    TimedOut,
    /// Any other connection fault.
    OtherError,
}

/// What the stream-accept loop does next.
#[derive(Clone, Copy, PartialEq, Eq, Structural, Debug)]
pub enum StreamAcceptDisposition {
    /// Bridge the accepted stream in a task of its own and keep accepting.
    BridgeStream,
    /// End this connection's loop quietly: the closure was graceful.
    EndQuietly,
    /// End this connection's loop and log the fault.
    EndWithError,
}

/// Decides how the server role's stream-accept loop answers one accept
/// outcome: graceful closure and timeout end the loop without error, any
/// other fault ends it as an error, and an accepted stream is bridged.
pub fn stream_accept_disposition(event: StreamAcceptEvent) -> (r: StreamAcceptDisposition)
    ensures
        event is StreamReady ==> r is BridgeStream,
        event is ApplicationClosed ==> r is EndQuietly,
        event is TimedOut ==> r is EndQuietly,
        event is OtherError ==> r is EndWithError,
{
    match event {
        StreamAcceptEvent::StreamReady => StreamAcceptDisposition::BridgeStream,
        StreamAcceptEvent::ApplicationClosed => StreamAcceptDisposition::EndQuietly,
        StreamAcceptEvent::TimedOut => StreamAcceptDisposition::EndQuietly,
        StreamAcceptEvent::OtherError => StreamAcceptDisposition::EndWithError,
    }
}

} // verus!
