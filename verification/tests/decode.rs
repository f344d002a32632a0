use parity_scale_codec::{Compact, Encode};
use relay_collator::header::decode_header;

/// SCALE-encodes a header: parent hash, compact number, state root,
/// extrinsics root, compact digest length, digest bytes.
fn header_bytes(
    parent_hash: [u8; 32],
    number: u32,
    state_root: [u8; 32],
    extrinsics_root: [u8; 32],
    digest: &[u8],
) -> Vec<u8> {
    let mut out = Vec::new();
    out.extend_from_slice(&parent_hash);
    out.extend_from_slice(&Compact(number).encode());
    out.extend_from_slice(&state_root);
    out.extend_from_slice(&extrinsics_root);
    out.extend_from_slice(&Compact(digest.len() as u32).encode());
    out.extend_from_slice(digest);
    out
}

#[test]
fn decode_valid_header() {
    let bytes = header_bytes([1u8; 32], 7, [2u8; 32], [3u8; 32], &[9, 8, 7]);
    let h = decode_header(&bytes).expect("well-formed header");
    assert_eq!(h.parent_hash, vec![1u8; 32]);
    assert_eq!(h.number, 7);
    assert_eq!(h.state_root, vec![2u8; 32]);
    assert_eq!(h.extrinsics_root, vec![3u8; 32]);
    assert_eq!(h.digest, vec![9, 8, 7]);
}

#[test]
fn decode_two_byte_compact_number() {
    // 300 does not fit the single-byte compact mode; the decoded number
    // must be the value, not the raw bytes.
    let bytes = header_bytes([0u8; 32], 300, [0u8; 32], [0u8; 32], &[]);
    let h = decode_header(&bytes).expect("well-formed header");
    assert_eq!(h.number, 300);
}

#[test]
fn decode_four_byte_compact_number() {
    let bytes = header_bytes([0u8; 32], 1_000_000, [0u8; 32], [0u8; 32], &[]);
    let h = decode_header(&bytes).expect("well-formed header");
    assert_eq!(h.number, 1_000_000);
}

#[test]
fn decode_big_compact_number() {
    let bytes = header_bytes([0u8; 32], u32::MAX, [0u8; 32], [0u8; 32], &[]);
    let h = decode_header(&bytes).expect("well-formed header");
    assert_eq!(h.number, u32::MAX);
}

#[test]
fn decode_ignores_trailing_bytes() {
    let mut bytes = header_bytes([1u8; 32], 1, [2u8; 32], [3u8; 32], &[5]);
    bytes.extend_from_slice(&[0xaa, 0xbb]);
    let h = decode_header(&bytes).expect("well-formed header");
    assert_eq!(h.number, 1);
    assert_eq!(h.digest, vec![5]);
}

#[test]
fn decode_rejects_short_input() {
    assert!(decode_header(&vec![0u8; 10]).is_none());
    assert!(decode_header(&Vec::new()).is_none());
}

#[test]
fn decode_rejects_truncated_roots() {
    // A full parent hash and number, but the roots are cut off.
    let full = header_bytes([1u8; 32], 7, [2u8; 32], [3u8; 32], &[]);
    let cut = full[..50].to_vec();
    assert!(decode_header(&cut).is_none());
}

#[test]
fn decode_rejects_bad_compact_mode() {
    // After the parent hash, a first byte of 7 announces a big-integer
    // compact wider than a u32 allows.
    let mut bytes = vec![0u8; 32];
    bytes.push(7);
    bytes.extend_from_slice(&[0u8; 80]);
    assert!(decode_header(&bytes).is_none());
}

#[test]
fn decode_rejects_non_canonical_compact() {
    // 1 encoded in the two-byte mode: the codec refuses over-wide
    // encodings of small values.
    let mut bytes = vec![0u8; 32];
    bytes.extend_from_slice(&[0b0000_0101, 0]);
    bytes.extend_from_slice(&[0u8; 80]);
    assert!(decode_header(&bytes).is_none());
}

#[test]
fn decode_rejects_digest_shorter_than_announced() {
    // Announce four digest bytes but supply one.
    let mut bytes = vec![1u8; 32];
    bytes.extend_from_slice(&Compact(7u32).encode());
    bytes.extend_from_slice(&[2u8; 32]);
    bytes.extend_from_slice(&[3u8; 32]);
    bytes.extend_from_slice(&Compact(4u32).encode());
    bytes.push(1);
    assert!(decode_header(&bytes).is_none());
}
