//! Client-side orchestration of a hardware-enclave remote-attestation
//! handshake: wire codecs for the five protocol messages, a client for the
//! platform quoting service's framed exchanges, and the state machine that
//! drives the five-message flow to a trust verdict.

use vstd::prelude::*;

pub mod context;
pub mod msg;
pub mod quoting;
pub mod wire;

verus! {

/// Errors that can end an attestation session.
#[derive(Clone, Copy, PartialEq, Eq, Structural, Debug)]
pub enum ClientRaError {
    /// An I/O error on one of the streams or service connections.
    TransportFailure,
    /// A malformed or truncated message or frame.
    EncodingFailure,
    /// The service provider judged the enclave untrusted.
    EnclaveNotTrusted,
    /// The service provider judged the platform-service manifest untrusted.
    PseNotTrusted,
    /// A quoting-service endpoint could not be reached.
    QuotingServiceUnavailable,
}

} // verus!
