//! Secure-transport and routing-bridge core of a privacy-preserving
//! messaging client.
//!
//! The crate holds the security-critical decisions of the client, each with a
//! verified contract:
//!
//! - [`fingerprint`]: certificate pinning — a presented transport certificate
//!   is trusted only if its SHA-256 digest matches a pinned fingerprint, and
//!   an empty pinned set rejects everything (fail closed).
//! - [`session`]: the single-session secure transport state machine —
//!   connect, disconnect, send and status over one relay connection.
//! - [`relay`]: the static relay registry and the bounded relay circuit.
//! - [`wire`]: the length-prefixed wire frame for routed packets.
//! - [`bridge`]: routing-mode selection and the lifecycle of the
//!   onion-routing engine bridge.
//!
//! [`errors`] holds the shared failure taxonomy and [`text`] the string
//! comparison the catalog and the bridge rely on.
//!
//! Network I/O itself (the QUIC endpoint, streams, the engine) lives outside
//! this crate; the functions here decide what the I/O layer must do and
//! record what it reports back.

pub mod bridge;
pub mod errors;
pub mod fingerprint;
pub mod relay;
pub mod session;
pub mod text;
pub mod wire;
