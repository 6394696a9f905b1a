//! The secure session manager: a state machine over one relay connection.
//!
//! A transport owns at most one session; the session being present is what
//! "connected" means, so an impossible state (a descriptor with no
//! connection, or the reverse) cannot be represented. The network work
//! itself — building the client endpoint, the handshake, streams — is done
//! by an I/O layer outside this crate: the functions here decide what that
//! layer must do and record what it reports back.

use vstd::prelude::*;

use crate::errors::TransportError;
use vstd::string::StringExecFns;

verus! {

/// A relay descriptor: the endpoint a caller asks to connect to. It need
/// not match an entry of the relay catalog.
#[derive(Debug, Clone)]
pub struct RelayInfo {
    pub address: String,
    pub port: u16,
    pub public_key: Option<String>,
}

/// What `get_relay_status` reports: whether a session is active and, if so,
/// the endpoint it was opened against. Round-trip latency is not measured
/// by this component and is always reported unknown.
#[derive(Debug)]
pub struct RelayStatus {
    pub connected: bool,
    pub relay_address: Option<String>,
    pub latency_ms: Option<u64>,
}

/// The decimal digit characters.
pub open spec fn spec_digit_char(d: int) -> char {
    if d == 0 {
        '0'
    } else if d == 1 {
        '1'
    } else if d == 2 {
        '2'
    } else if d == 3 {
        '3'
    } else if d == 4 {
        '4'
    } else if d == 5 {
        '5'
    } else if d == 6 {
        '6'
    } else if d == 7 {
        '7'
    } else if d == 8 {
        '8'
    } else {
        '9'
    }
}

/// The decimal numeral of a nonnegative value, most significant digit
/// first, without leading zeros (zero itself is "0").
pub open spec fn spec_dec_digits(n: int) -> Seq<char>
    recommends
        n >= 0,
    decreases n,
{
    if n < 10 {
        seq![spec_digit_char(n)]
    } else {
        spec_dec_digits(n / 10).push(spec_digit_char(n % 10))
    }
}

fn digit_str(d: u16) -> (r: &'static str)
    requires
        d <= 9,
    ensures
        r@ == seq![spec_digit_char(d as int)],
{
    let s: &'static str = match d {
        0 => "0",
        1 => "1",
        2 => "2",
        3 => "3",
        4 => "4",
        5 => "5",
        6 => "6",
        7 => "7",
        8 => "8",
        _ => "9",
    };
    proof {
        reveal_strlit("0");
        reveal_strlit("1");
        reveal_strlit("2");
        reveal_strlit("3");
        reveal_strlit("4");
        reveal_strlit("5");
        reveal_strlit("6");
        reveal_strlit("7");
        reveal_strlit("8");
        reveal_strlit("9");
        assert(s@ =~= seq![spec_digit_char(d as int)]);
    }
    s
}

/// The decimal numeral of `n`.
fn u16_to_dec_string(n: u16) -> (r: String)
    ensures
        r@ == spec_dec_digits(n as int),
    decreases n,
{
    if n < 10 {
        String::from_str(digit_str(n))
    } else {
        let mut s = u16_to_dec_string(n / 10);
        s.append(digit_str(n % 10));
        proof {
            assert(spec_dec_digits((n / 10) as int) + seq![spec_digit_char((n % 10) as int)]
                =~= spec_dec_digits((n / 10) as int).push(spec_digit_char((n % 10) as int)));
        }
        s
    }
}

/// The `address:port` endpoint text of a relay descriptor.
pub open spec fn spec_endpoint_text(address: Seq<char>, port: u16) -> Seq<char> {
    address + seq![':'] + spec_dec_digits(port as int)
}

fn format_endpoint(address: &String, port: u16) -> (r: String)
    ensures
        r@ == spec_endpoint_text(address@, port),
{
    let mut s = address.clone();
    s.append(":");
    let digits = u16_to_dec_string(port);
    s.append(digits.as_str());
    proof {
        reveal_strlit(":");
        assert(s@ =~= spec_endpoint_text(address@, port));
    }
    s
}

/// Spec-level transport state: whether the client endpoint has been built
/// yet, and the descriptor of the active session if one is open.
pub struct TransportModel {
    pub endpoint_ready: bool,
    pub session: Option<RelayInfo>,
}

/// `disconnect` clears the session and keeps the client endpoint for reuse.
pub open spec fn spec_disconnect(t: TransportModel) -> TransportModel {
    TransportModel { session: None, ..t }
}

/// The secure session manager's state. The connection handles themselves
/// (client endpoint, live connection) are owned by the I/O layer; this
/// state decides and records their lifecycle.
#[derive(Debug)]
pub struct QuicTransport {
    endpoint_ready: bool,
    session: Option<RelayInfo>,
}

impl View for QuicTransport {
    type V = TransportModel;

    closed spec fn view(&self) -> TransportModel {
        TransportModel { endpoint_ready: self.endpoint_ready, session: self.session }
    }
}

impl QuicTransport {
    /// An active session exists.
    pub open spec fn spec_connected(&self) -> bool {
        self@.session is Some
    }

    /// A fresh transport: no client endpoint yet, no session.
    pub fn new() -> (r: Self)
        ensures
            r@ == (TransportModel { endpoint_ready: false, session: None }),
    {
        Self { endpoint_ready: false, session: None }
    }

    /// First step of `connect`: validate the request against the current
    /// state. `address_valid` is the I/O layer's report of whether
    /// `address:port` parses to a network endpoint. On success the result
    /// says whether the client endpoint must still be built: it is built
    /// lazily on first use and reused across reconnects.
    ///
    /// A connect with a session still open is ruled out by the
    /// precondition: replacing the session implicitly would leak the
    /// previous connection handle, so the caller must disconnect first.
    pub fn connect_to_relay(&self, address_valid: bool) -> (r: Result<bool, TransportError>)
        requires
            !self.spec_connected(),
        ensures
            r is Ok <==> address_valid,
            address_valid ==> r == Ok::<bool, TransportError>(!self@.endpoint_ready),
            !address_valid ==> r == Err::<bool, TransportError>(TransportError::InvalidAddress),
    {
        if !address_valid {
            return Err(TransportError::InvalidAddress);
        }
        Ok(!self.endpoint_ready)
    }

    /// The I/O layer built the client endpoint; it is kept for reuse.
    pub fn endpoint_created(&mut self)
        ensures
            final(self)@ == (TransportModel { endpoint_ready: true, ..old(self)@ }),
    {
        self.endpoint_ready = true;
    }

    /// Second step of `connect`: record the handshake's outcome. On success
    /// the session is open against `relay`; on failure the transport stays
    /// idle and the error names the handshake, which a caller may retry.
    pub fn handshake_finished(&mut self, relay: RelayInfo, success: bool) -> (r: Result<
        (),
        TransportError,
    >)
        requires
            !old(self).spec_connected(),
        ensures
            final(self)@.endpoint_ready == old(self)@.endpoint_ready,
            success ==> final(self)@.session == Some(relay) && r is Ok,
            !success ==> final(self)@.session is None && r == Err::<(), TransportError>(
                TransportError::ConnectionFailed,
            ),
    {
        if success {
            self.session = Some(relay);
            Ok(())
        } else {
            Err(TransportError::ConnectionFailed)
        }
    }

    /// Close the session if one is open. Idempotent: with no session this
    /// is a no-op, not an error. The result tells the I/O layer whether it
    /// holds a connection handle to close.
    pub fn disconnect_relay(&mut self) -> (r: bool)
        ensures
            final(self)@ == spec_disconnect(old(self)@),
            r == (old(self)@.session is Some),
    {
        let had = self.session.is_some();
        self.session = None;
        had
    }

    /// Gate for `send`: data may go out only over an active session. With
    /// no session the request fails here, and no network call is attempted.
    /// Each granted send opens a fresh unidirectional stream; streams are
    /// never reused across sends.
    pub fn send_via_quic(&self) -> (r: Result<(), TransportError>)
        ensures
            r is Ok <==> self@.session is Some,
            self@.session is None ==> r == Err::<(), TransportError>(TransportError::NotConnected),
    {
        match &self.session {
            Some(_) => Ok(()),
            None => Err(TransportError::NotConnected),
        }
    }

    /// Report whether a session is active and against which endpoint.
    /// Latency is always reported unknown: it must be sourced externally,
    /// for example by an active probe.
    pub fn get_relay_status(&self) -> (r: RelayStatus)
        ensures
            r.connected == (self@.session is Some),
            r.latency_ms is None,
            match self@.session {
                Some(relay) => match r.relay_address {
                    Some(text) => text@ == spec_endpoint_text(relay.address@, relay.port),
                    None => false,
                },
                None => r.relay_address is None,
            },
    {
        match &self.session {
            Some(relay) => RelayStatus {
                connected: true,
                relay_address: Some(format_endpoint(&relay.address, relay.port)),
                latency_ms: None,
            },
            None => RelayStatus { connected: false, relay_address: None, latency_ms: None },
        }
    }
}

/// Law: `disconnect` is idempotent. A second disconnect finds no session,
/// reports nothing to close, and leaves the state exactly as the first one
/// left it.
pub proof fn lemma_disconnect_idempotent(t: TransportModel)
    ensures
        spec_disconnect(spec_disconnect(t)) == spec_disconnect(t),
        spec_disconnect(t).session is None,
{
}

} // verus!
