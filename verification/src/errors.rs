//! Failure taxonomy shared by the transport, circuit and bridge layers.

use vstd::prelude::*;

verus! {

/// Every failure a caller of this crate can see.
///
/// The variant distinguishes local misuse (a bad mode token, an operation
/// with no session) from network or security failure (a failed handshake, a
/// refused certificate), so a caller can tell a logic error from a possible
/// attack. None of these trigger an automatic retry: recovery is the
/// caller's concern.
#[derive(Clone, Copy, Debug, PartialEq, Eq, Structural)]
pub enum TransportError {
    /// The relay descriptor's `address:port` does not form a network endpoint.
    InvalidAddress,
    /// The secure handshake with the relay failed.
    ConnectionFailed,
    /// An operation that needs an active session found none.
    NotConnected,
    /// Opening, writing or finishing a data stream failed mid-transfer.
    StreamError,
    /// The relay's certificate was refused by fingerprint pinning.
    CertificateRejected,
    /// The routing engine was used before it was initialized.
    NotInitialized,
    /// The routing-mode token is not one of the recognized names.
    InvalidRoutingMode,
    /// The circuit already holds its maximum number of hops.
    CircuitFull,
    /// The routing engine reported a failure of its own.
    EngineFailure,
}

} // verus!
