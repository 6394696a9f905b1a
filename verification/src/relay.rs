//! The static relay catalog and the bounded relay circuit.
//!
//! The catalog is a fixed list populated at construction; a future discovery
//! mechanism can replace it behind the same `get_available_relays` /
//! `get_relay` surface without touching the circuit builder. A circuit is an
//! ordered hop path with a hard cap on its length.

use vstd::prelude::*;

use crate::errors::TransportError;
use crate::text::str_eq;
use vstd::string::StringExecFns;

verus! {

/// One known relay: identity, endpoint, key material and observed metrics.
/// Entries are immutable once registered; equality is keyed by identity.
#[derive(Debug, Clone)]
pub struct RelayNode {
    pub id: String,
    pub address: String,
    pub port: u16,
    pub public_key: String,
    pub latency_ms: Option<u64>,
    pub bandwidth_mbps: Option<u32>,
}

/// A field-for-field copy of a relay entry.
fn copy_node(n: &RelayNode) -> (r: RelayNode)
    ensures
        r == *n,
{
    RelayNode {
        id: n.id.clone(),
        address: n.address.clone(),
        port: n.port,
        public_key: n.public_key.clone(),
        latency_ms: n.latency_ms,
        bandwidth_mbps: n.bandwidth_mbps,
    }
}

/// Static catalog of the known relays, keyed by identity.
#[derive(Debug)]
pub struct RelayDiscovery {
    known_relays: Vec<RelayNode>,
}

impl RelayDiscovery {
    /// The catalog's contents, in registration order.
    pub closed spec fn nodes(&self) -> Seq<RelayNode> {
        self.known_relays@
    }

    /// Identities are unique: the catalog is a map from identity to node.
    pub open spec fn wf(&self) -> bool {
        forall|i: int, j: int|
            0 <= i < j < self.nodes().len() ==> self.nodes()[i].id@ != self.nodes()[j].id@
    }

    /// The shipped static relay list. The key material is stand-in data and
    /// not usable for real trust decisions, which come from fingerprint
    /// pinning alone.
    pub fn new() -> (r: Self)
        ensures
            r.wf(),
            r.nodes().len() == 2,
            r.nodes()[0].id@ == "relay1"@,
            r.nodes()[0].address@ == "relay1.taior.net"@,
            r.nodes()[0].port == 4433,
            r.nodes()[0].public_key@ == "placeholder_key_1"@,
            r.nodes()[0].latency_ms == Some(50u64),
            r.nodes()[0].bandwidth_mbps == Some(100u32),
            r.nodes()[1].id@ == "relay2"@,
            r.nodes()[1].address@ == "relay2.taior.net"@,
            r.nodes()[1].port == 4433,
            r.nodes()[1].public_key@ == "placeholder_key_2"@,
            r.nodes()[1].latency_ms == Some(80u64),
            r.nodes()[1].bandwidth_mbps == Some(80u32),
    {
        let mut known_relays: Vec<RelayNode> = Vec::new();
        known_relays.push(
            RelayNode {
                id: String::from_str("relay1"),
                address: String::from_str("relay1.taior.net"),
                port: 4433,
                public_key: String::from_str("placeholder_key_1"),
                latency_ms: Some(50),
                bandwidth_mbps: Some(100),
            },
        );
        known_relays.push(
            RelayNode {
                id: String::from_str("relay2"),
                address: String::from_str("relay2.taior.net"),
                port: 4433,
                public_key: String::from_str("placeholder_key_2"),
                latency_ms: Some(80),
                bandwidth_mbps: Some(80),
            },
        );
        proof {
            reveal_strlit("relay1");
            reveal_strlit("relay2");
            assert("relay1"@[5] == '1' && "relay2"@[5] == '2');
            assert("relay1"@ != "relay2"@);
        }
        Self { known_relays }
    }

    /// Every known relay, as a fresh list in registration order.
    pub fn get_available_relays(&self) -> (r: Vec<RelayNode>)
        ensures
            r@ == self.nodes(),
    {
        let mut out: Vec<RelayNode> = Vec::new();
        let n: usize = self.known_relays.len();
        let mut i: usize = 0;
        while i < n
            invariant
                n == self.nodes().len(),
                i <= n,
                out@.len() == i,
                forall|j: int| 0 <= j < i ==> out@[j] == self.nodes()[j],
            decreases n - i,
        {
            out.push(copy_node(&self.known_relays[i]));
            i += 1;
        }
        proof {
            assert(out@ =~= self.nodes());
        }
        out
    }

    /// Look an identity up; an identity the catalog does not hold yields
    /// nothing.
    pub fn get_relay(&self, id: &str) -> (r: Option<&RelayNode>)
        ensures
            match r {
                Some(node) => {
                    &&& exists|i: int| 0 <= i < self.nodes().len() && self.nodes()[i] == *node
                    &&& node.id@ == id@
                },
                None => forall|i: int| 0 <= i < self.nodes().len() ==> self.nodes()[i].id@ != id@,
            },
    {
        let n: usize = self.known_relays.len();
        let mut i: usize = 0;
        while i < n
            invariant
                n == self.nodes().len(),
                i <= n,
                forall|j: int| 0 <= j < i ==> self.nodes()[j].id@ != id@,
            decreases n - i,
        {
            if str_eq(self.known_relays[i].id.as_str(), id) {
                return Some(&self.known_relays[i]);
            }
            i += 1;
        }
        None
    }
}

/// The spec-level state of a circuit: its hops in entry-to-exit order and
/// the hard hop cap it was created with.
pub struct CircuitModel {
    pub hops: Seq<RelayNode>,
    pub max_hops: nat,
}

/// One `add_hop` step: the node is appended when the cap allows; otherwise
/// the circuit is unchanged and the step reports failure. The cap is
/// enforced before mutation: a full circuit rejects, it never truncates.
pub open spec fn spec_add_hop(c: CircuitModel, relay: RelayNode) -> (CircuitModel, bool) {
    if c.hops.len() < c.max_hops {
        (CircuitModel { hops: c.hops.push(relay), max_hops: c.max_hops }, true)
    } else {
        (c, false)
    }
}

/// The latency one hop contributes: its known latency, or zero when the
/// hop has not reported one.
pub open spec fn spec_latency_of(n: RelayNode) -> int {
    match n.latency_ms {
        Some(l) => l as int,
        None => 0,
    }
}

/// The sum of the hops' known latencies. This is a diagnostic upper-bound
/// estimate, not true end-to-end latency.
pub open spec fn spec_total_latency(hops: Seq<RelayNode>) -> int
    decreases hops.len(),
{
    if hops.len() == 0 {
        0
    } else {
        spec_total_latency(hops.drop_last()) + spec_latency_of(hops.last())
    }
}

proof fn lemma_total_latency_push(s: Seq<RelayNode>, x: RelayNode)
    ensures
        spec_total_latency(s.push(x)) == spec_total_latency(s) + spec_latency_of(x),
{
    assert(s.push(x).drop_last() =~= s);
    assert(s.push(x).last() == x);
}

proof fn lemma_total_latency_nonneg(s: Seq<RelayNode>)
    ensures
        spec_total_latency(s) >= 0,
    decreases s.len(),
{
    if s.len() > 0 {
        lemma_total_latency_nonneg(s.drop_last());
    }
}

proof fn lemma_total_latency_prefix(s: Seq<RelayNode>, i: int)
    requires
        0 <= i <= s.len(),
    ensures
        spec_total_latency(s.take(i)) <= spec_total_latency(s),
    decreases s.len() - i,
{
    if i == s.len() {
        assert(s.take(i) =~= s);
    } else {
        assert(s.take(i + 1).drop_last() =~= s.take(i));
        assert(s.take(i + 1).last() == s[i]);
        lemma_total_latency_prefix(s, i + 1);
    }
}

/// An ordered multi-hop path through relays, bounded by a hard hop cap.
/// Hop 1 is the entry; insertion order is hop order.
#[derive(Debug)]
pub struct RelayCircuit {
    hops: Vec<RelayNode>,
    max_hops: usize,
}

impl View for RelayCircuit {
    type V = CircuitModel;

    closed spec fn view(&self) -> CircuitModel {
        CircuitModel { hops: self.hops@, max_hops: self.max_hops as nat }
    }
}

impl RelayCircuit {
    /// The hop list never exceeds the cap.
    pub open spec fn wf(&self) -> bool {
        self@.hops.len() <= self@.max_hops
    }

    /// An empty circuit with the given hard hop cap.
    pub fn new(max_hops: usize) -> (r: Self)
        ensures
            r@.hops.len() == 0,
            r@.max_hops == max_hops,
            r.wf(),
    {
        Self { hops: Vec::new(), max_hops }
    }

    /// Append a hop to the path. Fails once the path holds `max_hops`
    /// entries; the cap is checked before mutation, so a full circuit is
    /// left exactly as it was.
    pub fn add_hop(&mut self, relay: RelayNode) -> (r: Result<(), TransportError>)
        ensures
            final(self)@ == spec_add_hop(old(self)@, relay).0,
            r is Ok <==> spec_add_hop(old(self)@, relay).1,
            r is Err ==> r == Err::<(), TransportError>(TransportError::CircuitFull),
            old(self).wf() ==> final(self).wf(),
    {
        if self.hops.len() >= self.max_hops {
            return Err(TransportError::CircuitFull);
        }
        self.hops.push(relay);
        Ok(())
    }

    /// The path in entry-to-exit order.
    pub fn get_hops(&self) -> (r: &[RelayNode])
        ensures
            r@ == self@.hops,
    {
        self.hops.as_slice()
    }

    /// The sum of the hops' known latencies; a hop with unknown latency
    /// contributes zero, it is not an error.
    pub fn total_latency(&self) -> (r: u64)
        requires
            spec_total_latency(self@.hops) <= u64::MAX,
        ensures
            r == spec_total_latency(self@.hops),
    {
        let n: usize = self.hops.len();
        let mut total: u64 = 0;
        let mut i: usize = 0;
        proof {
            assert(self@.hops.take(0) =~= Seq::<RelayNode>::empty());
        }
        while i < n
            invariant
                n == self@.hops.len(),
                i <= n,
                total == spec_total_latency(self@.hops.take(i as int)),
                spec_total_latency(self@.hops) <= u64::MAX,
            decreases n - i,
        {
            let hop_latency: u64 = match self.hops[i].latency_ms {
                Some(l) => l,
                None => 0,
            };
            proof {
                lemma_total_latency_push(self@.hops.take(i as int), self@.hops[i as int]);
                assert(self@.hops.take(i as int).push(self@.hops[i as int]) =~= self@.hops.take(
                    i + 1,
                ));
                lemma_total_latency_nonneg(self@.hops.take(i as int));
                lemma_total_latency_prefix(self@.hops, i + 1);
            }
            total = total + hop_latency;
            i += 1;
        }
        proof {
            assert(self@.hops.take(n as int) =~= self@.hops);
        }
        total
    }
}

/// Repeated `add_hop` steps, one per node, from a given circuit state.
pub open spec fn spec_add_all(c: CircuitModel, relays: Seq<RelayNode>) -> CircuitModel
    decreases relays.len(),
{
    if relays.len() == 0 {
        c
    } else {
        spec_add_all(spec_add_hop(c, relays.first()).0, relays.drop_first())
    }
}

/// Law: a circuit whose cap leaves room for `k` more hops accepts exactly
/// `k` further `add_hop` calls. Afterwards every call fails and leaves the
/// circuit unchanged, and at no point does the hop count exceed the cap.
pub proof fn lemma_circuit_capacity(c: CircuitModel, relays: Seq<RelayNode>)
    requires
        c.hops.len() <= c.max_hops,
    ensures
        spec_add_all(c, relays).max_hops == c.max_hops,
        spec_add_all(c, relays).hops.len() == if c.hops.len() + relays.len() <= c.max_hops {
            (c.hops.len() + relays.len()) as int
        } else {
            c.max_hops as int
        },
        spec_add_all(c, relays).hops.len() <= c.max_hops,
        c.hops.len() == c.max_hops ==> spec_add_all(c, relays) == c,
        c.hops.len() == c.max_hops && relays.len() > 0 ==> !spec_add_hop(c, relays.first()).1,
    decreases relays.len(),
{
    if relays.len() > 0 {
        lemma_circuit_capacity(spec_add_hop(c, relays.first()).0, relays.drop_first());
    }
}

} // verus!
