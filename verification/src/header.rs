//! The parachain block header carried in a request's `parent_head` bytes.
//!
//! The pipeline needs the header only to know that the parent head is
//! well-formed and to hand it on to the collaborators, so the model keeps
//! the decoded fields as plain values: two hash roots and the parent hash
//! as raw 32-byte strings, the block number, and the digest as the raw
//! bytes of its length-prefixed blob. The wire format is SCALE: fixed
//! 32-byte hashes, compact-encoded number and digest length.

use vstd::prelude::*;
use crate::scale::{decode_compact_u32, spec_compact_u32};

verus! {

/// Length in bytes of a hash on the wire.
pub const HASH_LEN: usize = 32;

/// A decoded parachain header.
#[derive(Clone, Debug, PartialEq, Eq)]
pub struct Header {
    pub parent_hash: Vec<u8>,
    pub number: u32,
    pub state_root: Vec<u8>,
    pub extrinsics_root: Vec<u8>,
    pub digest: Vec<u8>,
}

/// The mathematical value of a [`Header`].
pub ghost struct HeaderView {
    pub parent_hash: Seq<u8>,
    pub number: u32,
    pub state_root: Seq<u8>,
    pub extrinsics_root: Seq<u8>,
    pub digest: Seq<u8>,
}

impl View for Header {
    type V = HeaderView;

    open spec fn view(&self) -> HeaderView {
        HeaderView {
            parent_hash: self.parent_hash@,
            number: self.number,
            state_root: self.state_root@,
            extrinsics_root: self.extrinsics_root@,
            digest: self.digest@,
        }
    }
}

/// What decoding a header from the front of `s` yields: the fields in
/// order — parent hash, compact number, state root, extrinsics root,
/// compact digest length, digest bytes — or `None` when `s` has no
/// well-formed header as a prefix. Trailing bytes after the digest are
/// ignored, as the codec's decoder ignores them.
pub open spec fn spec_decode_header(s: Seq<u8>) -> Option<HeaderView> {
    if s.len() < 32 {
        None
    } else {
        match spec_compact_u32(s.skip(32)) {
            None => None,
            Some((number, c1)) => {
                let roots_at = 32 + c1;
                if s.len() < roots_at + 64 {
                    None
                } else {
                    match spec_compact_u32(s.skip(roots_at + 64)) {
                        None => None,
                        Some((digest_len, c2)) => {
                            let digest_at = roots_at + 64 + c2;
                            if s.len() < digest_at + digest_len {
                                None
                            } else {
                                Some(HeaderView {
                                    parent_hash: s.subrange(0, 32),
                                    number,
                                    state_root: s.subrange(roots_at, roots_at + 32),
                                    extrinsics_root: s.subrange(roots_at + 32, roots_at + 64),
                                    digest: s.subrange(digest_at, digest_at + digest_len),
                                })
                            }
                        },
                    }
                }
            },
        }
    }
}

/// Law: every decoded header is well-formed — its parent hash and its two
/// roots are exactly [`HASH_LEN`] bytes.
pub proof fn lemma_decoded_header_well_formed(s: Seq<u8>)
    ensures
        (match spec_decode_header(s) {
            Some(h) => h.parent_hash.len() == HASH_LEN && h.state_root.len() == HASH_LEN
                && h.extrinsics_root.len() == HASH_LEN,
            None => true,
        }),
{
}

/// Copies `bytes[pos .. pos + n]` out as a fresh vector.
fn take_bytes(bytes: &Vec<u8>, pos: usize, n: usize) -> (r: Vec<u8>)
    requires
        pos + n <= bytes.len(),
    ensures
        r@ == bytes@.subrange(pos as int, pos as int + n as int),
{
    let mut out: Vec<u8> = Vec::new();
    let mut i: usize = 0;
    while i < n
        invariant
            pos + n <= bytes.len(),
            i <= n,
            out@ == bytes@.subrange(pos as int, pos as int + i as int),
        decreases n - i,
    {
        out.push(bytes[pos + i]);
        assert(out@ =~= bytes@.subrange(pos as int, pos as int + i as int + 1));
        i = i + 1;
    }
    out
}

/// Decodes a header from the front of `bytes`, exactly as
/// [`spec_decode_header`] states it.
pub fn decode_header(bytes: &Vec<u8>) -> (r: Option<Header>)
    ensures
        match r {
            Some(h) => spec_decode_header(bytes@) == Some(h@),
            None => spec_decode_header(bytes@) is None,
        },
{
    let len = bytes.len();
    if len < HASH_LEN {
        return None;
    }
    let (number, rem1) = match decode_compact_u32(bytes, HASH_LEN) {
        None => {
            return None;
        },
        Some(p) => p,
    };
    let c1 = (len - HASH_LEN) - rem1;
    let roots_at = HASH_LEN + c1;
    assert(bytes@.skip(32).len() == len - 32);
    if len - roots_at < 2 * HASH_LEN {
        return None;
    }
    let tail_at = roots_at + 2 * HASH_LEN;
    let (digest_len, rem2) = match decode_compact_u32(bytes, tail_at) {
        None => {
            return None;
        },
        Some(p) => p,
    };
    let c2 = (len - tail_at) - rem2;
    let digest_at = tail_at + c2;
    if rem2 < digest_len as usize {
        return None;
    }
    let h = Header {
        parent_hash: take_bytes(bytes, 0, HASH_LEN),
        number,
        state_root: take_bytes(bytes, roots_at, HASH_LEN),
        extrinsics_root: take_bytes(bytes, roots_at + HASH_LEN, HASH_LEN),
        digest: take_bytes(bytes, digest_at, digest_len as usize),
    };
    Some(h)
}

} // verus!
