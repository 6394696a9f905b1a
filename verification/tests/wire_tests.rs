use hush_transport::wire::RoutedPacket;
use hush_transport::wire::decode_frame;
use hush_transport::wire::encode_frame;

fn packet(payload: &[u8], ikm: &[u8]) -> RoutedPacket {
    RoutedPacket {
        encrypted_payload: payload.to_vec(),
        ikm: ikm.to_vec(),
    }
}

#[test]
fn frame_layout_is_length_prefix_payload_ikm() {
    let frame = encode_frame(&packet(&[0xaa, 0xbb, 0xcc], &[0x01, 0x02]));
    assert_eq!(frame, vec![0, 0, 0, 3, 0xaa, 0xbb, 0xcc, 0x01, 0x02]);
}

#[test]
fn length_prefix_is_big_endian() {
    let payload = vec![0u8; 300];
    let frame = encode_frame(&packet(&payload, &[]));
    assert_eq!(&frame[0..4], &[0, 0, 0x01, 0x2c]);
    assert_eq!(frame.len(), 4 + 300);
}

#[test]
fn round_trip_recovers_payload_and_ikm() {
    let original = packet(&[9, 8, 7, 6, 5], &[1, 2, 3]);
    let frame = encode_frame(&original);
    let decoded = decode_frame(&frame).expect("the frame is well formed");
    assert_eq!(decoded.encrypted_payload, vec![9, 8, 7, 6, 5]);
    assert_eq!(decoded.ikm, vec![1, 2, 3]);
}

#[test]
fn round_trip_with_empty_payload() {
    let frame = encode_frame(&packet(&[], &[0x42, 0x43]));
    assert_eq!(frame, vec![0, 0, 0, 0, 0x42, 0x43]);
    let decoded = decode_frame(&frame).expect("a zero-length payload is valid");
    assert!(decoded.encrypted_payload.is_empty());
    assert_eq!(decoded.ikm, vec![0x42, 0x43]);
}

#[test]
fn round_trip_with_empty_ikm() {
    let frame = encode_frame(&packet(&[5, 5], &[]));
    let decoded = decode_frame(&frame).expect("a frame may carry no key material");
    assert_eq!(decoded.encrypted_payload, vec![5, 5]);
    assert!(decoded.ikm.is_empty());
}

#[test]
fn round_trip_of_everything_empty() {
    let frame = encode_frame(&packet(&[], &[]));
    assert_eq!(frame, vec![0, 0, 0, 0]);
    let decoded = decode_frame(&frame).expect("the empty packet still frames");
    assert!(decoded.encrypted_payload.is_empty());
    assert!(decoded.ikm.is_empty());
}

#[test]
fn frame_shorter_than_the_prefix_is_rejected() {
    assert!(decode_frame(&[]).is_none());
    assert!(decode_frame(&[0]).is_none());
    assert!(decode_frame(&[0, 0, 0]).is_none());
}

#[test]
fn truncated_payload_is_rejected_not_padded() {
    // The prefix promises five payload bytes; only two follow.
    assert!(decode_frame(&[0, 0, 0, 5, 1, 2]).is_none());
    // One byte short of the promise still fails.
    assert!(decode_frame(&[0, 0, 0, 5, 1, 2, 3, 4]).is_none());
    // Exactly the promise succeeds, with nothing left as key material.
    let decoded = decode_frame(&[0, 0, 0, 5, 1, 2, 3, 4, 5]).unwrap();
    assert_eq!(decoded.encrypted_payload, vec![1, 2, 3, 4, 5]);
    assert!(decoded.ikm.is_empty());
}
