//! Certificate pinning: a presented transport certificate is trusted only if
//! the SHA-256 digest of its DER encoding matches one of a configured set of
//! pinned fingerprints. An empty pinned set rejects every certificate, so an
//! unconfigured client can never silently trust an arbitrary peer.

use vstd::prelude::*;

verus! {

/// The SHA-256 digest of a byte sequence. The digest is computed by the
/// sha2 crate and is a function of the input bytes alone; nothing further
/// is assumed of its value.
pub uninterp spec fn sha256_of(data: Seq<u8>) -> Seq<u8>;

/// Relies on sha2's `Sha256` through `digest::Digest::digest`: a one-shot
/// SHA-256 over the input, 32 bytes of output, depending on the input alone.
#[verifier::external_body]
fn sha256_digest(data: &[u8]) -> (r: Vec<u8>)
    ensures
        r@ == sha256_of(data@),
        r@.len() == 32,
{
    <sha2::Sha256 as sha2::Digest>::digest(data).to_vec()
}

/// Exact equality of two byte vectors.
fn bytes_eq(a: &Vec<u8>, b: &Vec<u8>) -> (r: bool)
    ensures
        r == (a@ == b@),
{
    if a.len() != b.len() {
        return false;
    }
    let n: usize = a.len();
    let mut i: usize = 0;
    while i < n
        invariant
            n == a@.len(),
            n == b@.len(),
            i <= n,
            forall|j: int| 0 <= j < i ==> a@[j] == b@[j],
        decreases n - i,
    {
        if a[i] != b[i] {
            return false;
        }
        i += 1;
    }
    proof {
        assert(a@ =~= b@);
    }
    true
}

/// Why a certificate was refused.
#[derive(Clone, Copy, Debug, PartialEq, Eq, Structural)]
pub enum RejectReason {
    /// No pins are configured: the client trusts nobody (fail closed).
    NoPinsConfigured,
    /// The certificate's digest matches no pinned fingerprint.
    FingerprintMismatch,
}

/// Decides whether a presented transport-layer certificate is acceptable,
/// from a configured set of trusted SHA-256 fingerprints.
///
/// Identity is certified via fingerprint alone, not via any certificate
/// authority chain: relay identities are self-issued. In-band handshake
/// signature checks are left to the transport-security stack.
pub struct PinnedCertVerifier {
    pinned_hashes: Vec<Vec<u8>>,
}

/// The signature schemes the transport-security stack may negotiate with
/// a pinned relay.
#[derive(Clone, Copy, Debug, PartialEq, Eq, Structural)]
pub enum SignatureSchemeId {
    RsaPkcs1Sha256,
    EcdsaNistp256Sha256,
    Ed25519,
}

impl PinnedCertVerifier {
    /// The pinned fingerprints, each as a byte sequence.
    pub closed spec fn pins(&self) -> Seq<Seq<u8>> {
        Seq::new(self.pinned_hashes@.len(), |i: int| self.pinned_hashes@[i]@)
    }

    /// A certificate is accepted exactly when some pin equals its SHA-256
    /// digest; an empty pinned set therefore accepts nothing.
    pub open spec fn spec_accepts(pins: Seq<Seq<u8>>, cert: Seq<u8>) -> bool {
        exists|i: int| 0 <= i < pins.len() && pins[i] == sha256_of(cert)
    }

    pub fn new(pinned_hashes: Vec<Vec<u8>>) -> (r: Self)
        ensures
            r.pins().len() == pinned_hashes@.len(),
            forall|i: int| 0 <= i < pinned_hashes@.len() ==> r.pins()[i] == pinned_hashes@[i]@,
    {
        Self { pinned_hashes }
    }

    /// The SHA-256 fingerprint of a certificate's DER encoding.
    pub fn fingerprint(cert: &[u8]) -> (r: Vec<u8>)
        ensures
            r@ == sha256_of(cert@),
            r@.len() == 32,
    {
        sha256_digest(cert)
    }

    /// Decide whether the presented end-entity certificate (DER bytes) is a
    /// pinned relay.
    ///
    /// Accepts exactly when the pinned set is non-empty and the SHA-256
    /// digest of the certificate equals one of its entries. Rejection
    /// distinguishes the fail-closed empty-set case from a genuine
    /// fingerprint mismatch.
    pub fn verify_server_cert(&self, end_entity: &[u8]) -> (r: Result<(), RejectReason>)
        ensures
            r is Ok <==> Self::spec_accepts(self.pins(), end_entity@),
            self.pins().len() == 0 ==> r == Err::<(), RejectReason>(RejectReason::NoPinsConfigured),
            self.pins().len() > 0 && !Self::spec_accepts(self.pins(), end_entity@) ==> r == Err::<
                (),
                RejectReason,
            >(RejectReason::FingerprintMismatch),
    {
        if self.pinned_hashes.len() == 0 {
            return Err(RejectReason::NoPinsConfigured);
        }
        let digest = sha256_digest(end_entity);
        let n: usize = self.pinned_hashes.len();
        let mut i: usize = 0;
        while i < n
            invariant
                n == self.pinned_hashes@.len(),
                i <= n,
                digest@ == sha256_of(end_entity@),
                forall|j: int| 0 <= j < i ==> self.pins()[j] != sha256_of(end_entity@),
            decreases n - i,
        {
            if bytes_eq(&self.pinned_hashes[i], &digest) {
                assert(self.pins()[i as int] == sha256_of(end_entity@));
                return Ok(());
            }
            i += 1;
        }
        Err(RejectReason::FingerprintMismatch)
    }

    /// The fixed list of signature schemes offered during the handshake.
    pub fn supported_verify_schemes() -> (r: Vec<SignatureSchemeId>)
        ensures
            r@ =~= seq![
                SignatureSchemeId::RsaPkcs1Sha256,
                SignatureSchemeId::EcdsaNistp256Sha256,
                SignatureSchemeId::Ed25519,
            ],
    {
        let mut schemes: Vec<SignatureSchemeId> = Vec::new();
        schemes.push(SignatureSchemeId::RsaPkcs1Sha256);
        schemes.push(SignatureSchemeId::EcdsaNistp256Sha256);
        schemes.push(SignatureSchemeId::Ed25519);
        schemes
    }
}

} // verus!
