//! The protocol bridge around the external onion-routing packet engine.
//!
//! The bridge maps a caller-supplied routing-mode token to a routing
//! policy, gates every operation on the engine being initialized, and
//! stores the cover-traffic policy it forwards. The engine itself — key
//! derivation, layered encryption, mix strategy — is an external black box
//! that, given a payload and a policy, returns an encrypted packet; its
//! output is serialized by [`crate::wire`].

use vstd::prelude::*;

use crate::errors::TransportError;
use crate::text::str_eq;

verus! {

/// A named routing policy: the latency / traffic-analysis tradeoff for one
/// message. Each policy maps 1:1 onto a packet-engine send-options preset;
/// the bridge never builds custom policy parameters.
#[derive(Clone, Copy, Debug, PartialEq, Eq, Structural)]
pub enum RoutingMode {
    Fast,
    Mix,
    Adaptive,
}

/// Bootstrap configuration for the routing engine.
#[derive(Debug, Clone)]
pub struct TaiorConfig {
    pub bootstrap_nodes: Vec<String>,
}

/// Which engine constructor the I/O layer is to run: a fresh engine, or
/// one seeded with the configured bootstrap nodes.
#[derive(Clone, Copy, Debug, PartialEq, Eq, Structural)]
pub enum InitPlan {
    Fresh,
    WithBootstrap,
}

/// The routing-mode token mapping. `"reinforced"` is a compatibility alias
/// for `"mix"` kept verbatim from an earlier naming scheme; any other
/// unrecognized token selects nothing.
pub open spec fn spec_routing_mode(token: Seq<char>) -> Option<RoutingMode> {
    if token == "fast"@ {
        Some(RoutingMode::Fast)
    } else if token == "mix"@ || token == "reinforced"@ {
        Some(RoutingMode::Mix)
    } else if token == "adaptive"@ {
        Some(RoutingMode::Adaptive)
    } else {
        None
    }
}

/// Map a caller-supplied routing-mode token to its policy; a token that
/// names no policy is refused.
pub fn select_routing_mode(token: &str) -> (r: Result<RoutingMode, TransportError>)
    ensures
        match r {
            Ok(m) => spec_routing_mode(token@) == Some(m),
            Err(e) => spec_routing_mode(token@) is None && e == TransportError::InvalidRoutingMode,
        },
{
    proof {
        reveal_strlit("fast");
        reveal_strlit("mix");
        reveal_strlit("reinforced");
        reveal_strlit("adaptive");
    }
    if str_eq(token, "fast") {
        Ok(RoutingMode::Fast)
    } else if str_eq(token, "mix") {
        Ok(RoutingMode::Mix)
    } else if str_eq(token, "reinforced") {
        Ok(RoutingMode::Mix)
    } else if str_eq(token, "adaptive") {
        Ok(RoutingMode::Adaptive)
    } else {
        Err(TransportError::InvalidRoutingMode)
    }
}

/// Law: the compatibility alias `"reinforced"` selects the very policy
/// `"mix"` selects. Two sends that differ only in these tokens therefore
/// use the same engine preset and — the wire frame being a function of the
/// engine's packet alone — produce structurally identical frames for the
/// same engine output.
pub proof fn lemma_reinforced_is_mix()
    ensures
        spec_routing_mode("reinforced"@) == spec_routing_mode("mix"@),
        spec_routing_mode("mix"@) == Some(RoutingMode::Mix),
{
    reveal_strlit("fast");
    reveal_strlit("mix");
    reveal_strlit("reinforced");
    assert("mix"@.len() == 3 && "fast"@.len() == 4 && "reinforced"@.len() == 10);
    assert("mix"@ != "fast"@ && "reinforced"@ != "fast"@);
}

/// Spec-level bridge state: whether the engine is initialized, and the
/// cover-traffic flag and ratio last stored. The ratio is carried as the
/// raw bit pattern of the caller's 32-bit float and forwarded to the
/// engine verbatim, never interpreted or range-checked here: out-of-range
/// values are the engine's concern.
pub struct BridgeModel {
    pub initialized: bool,
    pub cover_traffic_enabled: bool,
    pub cover_traffic_ratio_bits: u32,
}

/// The bridge's local state around the external packet engine: the
/// engine's lifecycle and the cover-traffic policy stored for
/// observability.
#[derive(Debug)]
pub struct TaiorState {
    initialized: bool,
    cover_traffic_enabled: bool,
    cover_traffic_ratio_bits: u32,
}

impl View for TaiorState {
    type V = BridgeModel;

    closed spec fn view(&self) -> BridgeModel {
        BridgeModel {
            initialized: self.initialized,
            cover_traffic_enabled: self.cover_traffic_enabled,
            cover_traffic_ratio_bits: self.cover_traffic_ratio_bits,
        }
    }
}

impl TaiorState {
    /// A bridge with no engine yet: nothing can be sent, cover traffic is
    /// off with ratio zero.
    pub fn new() -> (r: Self)
        ensures
            r@ == (BridgeModel {
                initialized: false,
                cover_traffic_enabled: false,
                cover_traffic_ratio_bits: 0,
            }),
    {
        Self { initialized: false, cover_traffic_enabled: false, cover_traffic_ratio_bits: 0 }
    }

    /// Initialize the engine: fresh when no bootstrap nodes are
    /// configured, seeded with them otherwise. The plan tells the I/O
    /// layer which engine constructor to run; afterwards the bridge has an
    /// engine, and the cover-traffic state is untouched.
    pub fn taior_init(&mut self, config: &TaiorConfig) -> (r: InitPlan)
        ensures
            final(self)@ == (BridgeModel { initialized: true, ..old(self)@ }),
            r == InitPlan::WithBootstrap <==> config.bootstrap_nodes@.len() > 0,
    {
        self.initialized = true;
        if config.bootstrap_nodes.len() == 0 {
            InitPlan::Fresh
        } else {
            InitPlan::WithBootstrap
        }
    }

    /// Gate and policy selection for one routed send. Nothing is sent
    /// before the engine is initialized, and an unrecognized mode token
    /// fails here — before the engine is invoked, with no effect on any
    /// state and no partial frame. On success the selected policy is
    /// handed back for the engine call.
    pub fn taior_send(&self, mode: &str) -> (r: Result<RoutingMode, TransportError>)
        ensures
            !self@.initialized ==> r == Err::<RoutingMode, TransportError>(
                TransportError::NotInitialized,
            ),
            self@.initialized ==> match r {
                Ok(m) => spec_routing_mode(mode@) == Some(m),
                Err(e) => spec_routing_mode(mode@) is None && e
                    == TransportError::InvalidRoutingMode,
            },
    {
        if !self.initialized {
            return Err(TransportError::NotInitialized);
        }
        select_routing_mode(mode)
    }

    /// Gate for reporting the engine's own address: available only once
    /// the engine is initialized.
    pub fn taior_address(&self) -> (r: Result<(), TransportError>)
        ensures
            r is Ok <==> self@.initialized,
            !self@.initialized ==> r == Err::<(), TransportError>(TransportError::NotInitialized),
    {
        if self.initialized {
            Ok(())
        } else {
            Err(TransportError::NotInitialized)
        }
    }

    /// Store and forward the cover-traffic policy. Requires an initialized
    /// engine; the flag and the ratio bits are recorded for observability
    /// and handed to the engine verbatim.
    pub fn taior_enable_cover_traffic(&mut self, enabled: bool, ratio_bits: u32) -> (r: Result<
        (),
        TransportError,
    >)
        ensures
            !old(self)@.initialized ==> r == Err::<(), TransportError>(
                TransportError::NotInitialized,
            ) && final(self)@ == old(self)@,
            old(self)@.initialized ==> r is Ok && final(self)@ == (BridgeModel {
                cover_traffic_enabled: enabled,
                cover_traffic_ratio_bits: ratio_bits,
                ..old(self)@
            }),
    {
        if !self.initialized {
            return Err(TransportError::NotInitialized);
        }
        self.cover_traffic_enabled = enabled;
        self.cover_traffic_ratio_bits = ratio_bits;
        Ok(())
    }

    /// The cover-traffic flag and ratio bits last stored.
    pub fn cover_traffic_state(&self) -> (r: (bool, u32))
        ensures
            r.0 == self@.cover_traffic_enabled,
            r.1 == self@.cover_traffic_ratio_bits,
    {
        (self.cover_traffic_enabled, self.cover_traffic_ratio_bits)
    }
}

} // verus!
