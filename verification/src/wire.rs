//! The wire frame for one routed packet.
//!
//! Canonical layout: a 4-byte big-endian payload length, then exactly that
//! many encrypted payload bytes, then every trailing byte as key material
//! ("ikm"). There is no terminator and no checksum; a frame shorter than its
//! own length prefix promises is refused, never zero-padded.

use vstd::prelude::*;

use vstd::slice::slice_index_get;
use vstd::slice::slice_subrange;
use vstd::slice::slice_to_vec;

verus! {

/// One routed message as produced by the packet engine: the encrypted
/// payload plus the key material the receiver needs. Produced and consumed
/// within a single send; never persisted.
#[derive(Debug)]
pub struct RoutedPacket {
    pub encrypted_payload: Vec<u8>,
    pub ikm: Vec<u8>,
}

/// The four big-endian bytes of a 32-bit value, most significant first.
pub open spec fn spec_u32_to_be_bytes(x: u32) -> Seq<u8> {
    seq![
        ((x >> 24) & 0xff) as u8,
        ((x >> 16) & 0xff) as u8,
        ((x >> 8) & 0xff) as u8,
        (x & 0xff) as u8,
    ]
}

/// The 32-bit value read from four big-endian bytes.
pub open spec fn spec_u32_from_be_bytes(s: Seq<u8>) -> u32
    recommends
        s.len() == 4,
{
    (((s[0] as u32) << 24) | ((s[1] as u32) << 16) | ((s[2] as u32) << 8) | (s[3] as u32)) as u32
}

pub proof fn lemma_u32_be_bytes_round_trip(x: u32)
    ensures
        spec_u32_to_be_bytes(x).len() == 4,
        spec_u32_from_be_bytes(spec_u32_to_be_bytes(x)) == x,
{
    assert({
        &&& (x >> 24) & 0xff < 256
        &&& (x >> 16) & 0xff < 256
        &&& (x >> 8) & 0xff < 256
        &&& x & 0xff < 256
    }) by (bit_vector);
    assert(x == (((x >> 24) & 0xff) << 24) | (((x >> 16) & 0xff) << 16) | (((x >> 8) & 0xff) << 8)
        | (x & 0xff)) by (bit_vector);
}

/// The four big-endian bytes of `x`.
fn u32_to_be_bytes(x: u32) -> (r: Vec<u8>)
    ensures
        r@ == spec_u32_to_be_bytes(x),
        r@.len() == 4,
{
    let mut r: Vec<u8> = Vec::new();
    r.push(((x >> 24) & 0xff) as u8);
    r.push(((x >> 16) & 0xff) as u8);
    r.push(((x >> 8) & 0xff) as u8);
    r.push((x & 0xff) as u8);
    proof {
        assert(r@ =~= spec_u32_to_be_bytes(x));
    }
    r
}

/// The 32-bit value read from four big-endian bytes.
fn u32_from_be_bytes(b0: u8, b1: u8, b2: u8, b3: u8) -> (r: u32)
    ensures
        r == spec_u32_from_be_bytes(seq![b0, b1, b2, b3]),
{
    ((b0 as u32) << 24) | ((b1 as u32) << 16) | ((b2 as u32) << 8) | (b3 as u32)
}

/// Append every byte of `src` to `dst`.
fn push_all(dst: &mut Vec<u8>, src: &Vec<u8>)
    ensures
        final(dst)@ == old(dst)@ + src@,
{
    proof {
        assert(old(dst)@ + src@.take(0) =~= old(dst)@);
    }
    let n: usize = src.len();
    let mut i: usize = 0;
    while i < n
        invariant
            n == src@.len(),
            i <= n,
            dst@ == old(dst)@ + src@.take(i as int),
        decreases n - i,
    {
        dst.push(src[i]);
        proof {
            assert(old(dst)@ + src@.take(i + 1) =~= (old(dst)@ + src@.take(i as int)).push(
                src@[i as int],
            ));
        }
        i += 1;
    }
    proof {
        assert(src@.take(n as int) =~= src@);
    }
}

/// The serialized form of a routed packet.
pub open spec fn spec_encode_frame(payload: Seq<u8>, ikm: Seq<u8>) -> Seq<u8>
    recommends
        payload.len() <= u32::MAX,
{
    spec_u32_to_be_bytes(payload.len() as u32) + payload + ikm
}

/// Reading a frame back: the length prefix first, exactly that many payload
/// bytes, every trailing byte as key material; anything shorter is refused.
pub open spec fn spec_decode_frame(frame: Seq<u8>) -> Option<(Seq<u8>, Seq<u8>)> {
    if frame.len() < 4 {
        None
    } else {
        let n = spec_u32_from_be_bytes(frame.subrange(0, 4)) as int;
        if frame.len() < 4 + n {
            None
        } else {
            Some((frame.subrange(4, 4 + n), frame.subrange(4 + n, frame.len() as int)))
        }
    }
}

/// Serialize a routed packet into its wire frame. The length prefix is four
/// bytes, so the payload cannot be longer than a 32-bit count.
pub fn encode_frame(packet: &RoutedPacket) -> (r: Vec<u8>)
    requires
        packet.encrypted_payload@.len() <= u32::MAX,
    ensures
        r@ == spec_encode_frame(packet.encrypted_payload@, packet.ikm@),
{
    let payload_len: u32 = packet.encrypted_payload.len() as u32;
    let mut r = u32_to_be_bytes(payload_len);
    push_all(&mut r, &packet.encrypted_payload);
    push_all(&mut r, &packet.ikm);
    r
}

/// Parse a wire frame back into a routed packet. A truncated frame — fewer
/// than four bytes, or fewer payload bytes than the prefix promises — is
/// refused.
pub fn decode_frame(frame: &[u8]) -> (r: Option<RoutedPacket>)
    ensures
        match r {
            Some(p) => spec_decode_frame(frame@) == Some((p.encrypted_payload@, p.ikm@)),
            None => spec_decode_frame(frame@) is None,
        },
{
    if frame.len() < 4 {
        return None;
    }
    let b0: u8 = *slice_index_get(frame, 0);
    let b1: u8 = *slice_index_get(frame, 1);
    let b2: u8 = *slice_index_get(frame, 2);
    let b3: u8 = *slice_index_get(frame, 3);
    let n_value: u32 = u32_from_be_bytes(b0, b1, b2, b3);
    proof {
        assert(seq![b0, b1, b2, b3] =~= frame@.subrange(0, 4));
    }
    let n: usize = n_value as usize;
    if n > frame.len() - 4 {
        return None;
    }
    let payload = slice_to_vec(slice_subrange(frame, 4, 4 + n));
    let ikm = slice_to_vec(slice_subrange(frame, 4 + n, frame.len()));
    Some(RoutedPacket { encrypted_payload: payload, ikm })
}

/// Law: encoding a routed packet and then decoding the frame recovers
/// exactly the payload and the key material, for every payload length the
/// length prefix can carry, including zero.
pub proof fn lemma_frame_round_trip(payload: Seq<u8>, ikm: Seq<u8>)
    requires
        payload.len() <= u32::MAX,
    ensures
        spec_decode_frame(spec_encode_frame(payload, ikm)) == Some((payload, ikm)),
{
    let frame = spec_encode_frame(payload, ikm);
    lemma_u32_be_bytes_round_trip(payload.len() as u32);
    assert(frame.subrange(0, 4) =~= spec_u32_to_be_bytes(payload.len() as u32));
    assert(frame.subrange(4, 4 + payload.len() as int) =~= payload);
    assert(frame.subrange(4 + payload.len() as int, frame.len() as int) =~= ikm);
}

} // verus!
