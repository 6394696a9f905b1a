use hush_transport::fingerprint::PinnedCertVerifier;
use hush_transport::fingerprint::RejectReason;
use hush_transport::fingerprint::SignatureSchemeId;

fn sha256_reference(data: &[u8]) -> Vec<u8> {
    <sha2::Sha256 as sha2::Digest>::digest(data).to_vec()
}

#[test]
fn empty_pin_set_rejects_everything() {
    let verifier = PinnedCertVerifier::new(Vec::new());
    let cert = vec![0x30u8, 0x82, 0x01, 0x0a];
    assert_eq!(
        verifier.verify_server_cert(&cert),
        Err(RejectReason::NoPinsConfigured)
    );
    // The same holds for an empty certificate: the set being empty decides.
    assert_eq!(
        verifier.verify_server_cert(&[]),
        Err(RejectReason::NoPinsConfigured)
    );
}

#[test]
fn pinned_digest_accepts() {
    let cert = vec![0x30u8, 0x82, 0x01, 0x0a, 0xde, 0xad, 0xbe, 0xef];
    let pin = sha256_reference(&cert);
    let verifier = PinnedCertVerifier::new(vec![pin]);
    assert_eq!(verifier.verify_server_cert(&cert), Ok(()));
}

#[test]
fn one_changed_byte_flips_accept_to_reject() {
    let cert = vec![0x30u8, 0x82, 0x01, 0x0a, 0xde, 0xad, 0xbe, 0xef];
    let pin = sha256_reference(&cert);
    let verifier = PinnedCertVerifier::new(vec![pin]);
    assert_eq!(verifier.verify_server_cert(&cert), Ok(()));

    let mut tampered = cert.clone();
    tampered[4] ^= 0x01;
    assert_eq!(
        verifier.verify_server_cert(&tampered),
        Err(RejectReason::FingerprintMismatch)
    );
}

#[test]
fn digest_is_real_sha256_not_the_input() {
    // A 32-byte certificate pinned as itself must still be rejected: the
    // comparison runs over the SHA-256 digest, never the raw bytes.
    let cert: Vec<u8> = (0u8..32).collect();
    let verifier = PinnedCertVerifier::new(vec![cert.clone()]);
    assert_eq!(
        verifier.verify_server_cert(&cert),
        Err(RejectReason::FingerprintMismatch)
    );
}

#[test]
fn fingerprint_matches_reference_digest() {
    let cert = b"relay certificate der bytes".to_vec();
    assert_eq!(PinnedCertVerifier::fingerprint(&cert), sha256_reference(&cert));
    assert_eq!(PinnedCertVerifier::fingerprint(&cert).len(), 32);
}

#[test]
fn second_pin_of_several_matches() {
    let cert = vec![1u8, 2, 3];
    let other = vec![4u8, 5, 6];
    let verifier = PinnedCertVerifier::new(vec![
        sha256_reference(&other),
        sha256_reference(&cert),
    ]);
    assert_eq!(verifier.verify_server_cert(&cert), Ok(()));
}

#[test]
fn supported_schemes_are_fixed() {
    let schemes = PinnedCertVerifier::supported_verify_schemes();
    assert_eq!(
        schemes,
        vec![
            SignatureSchemeId::RsaPkcs1Sha256,
            SignatureSchemeId::EcdsaNistp256Sha256,
            SignatureSchemeId::Ed25519,
        ]
    );
}
