//! SCALE compact integers.
//!
//! The parent-head bytes carried by a collation request are SCALE-encoded;
//! the variable-width fields use the compact integer encoding. Decoding is
//! done by the codec crate; [`spec_compact_u32`] states exactly what that
//! decoder accepts and returns, and the trusted wrapper below ties the call
//! to it.

use vstd::prelude::*;

verus! {

/// What SCALE compact decoding of a `u32` returns on the byte string `s`:
/// `Some((value, consumed))` when a compact integer is a prefix of `s`,
/// `None` when `s` is too short, carries a wider mode than a `u32` allows,
/// or is a non-canonical (over-wide) encoding of a small value.
///
/// The two low bits of the first byte select the width: one, two or four
/// bytes holding the value in the upper bits, or a single length byte
/// followed by four little-endian value bytes. Each wider mode is valid
/// only for values too large for the narrower ones.
pub open spec fn spec_compact_u32(s: Seq<u8>) -> Option<(u32, int)> {
    if s.len() == 0 {
        None
    } else {
        let prefix = s[0];
        if prefix % 4 == 0 {
            Some(((prefix / 4) as u32, 1))
        } else if prefix % 4 == 1 {
            if s.len() < 2 {
                None
            } else {
                let x = (prefix as nat + s[1] as nat * 256) / 4;
                if 63 < x && x <= 16383 {
                    Some((x as u32, 2))
                } else {
                    None
                }
            }
        } else if prefix % 4 == 2 {
            if s.len() < 4 {
                None
            } else {
                let x = (prefix as nat + s[1] as nat * 256 + s[2] as nat * 65536
                    + s[3] as nat * 16777216) / 4;
                if 16383 < x && x <= 0x3fffffff {
                    Some((x as u32, 4))
                } else {
                    None
                }
            }
        } else {
            if prefix != 3 || s.len() < 5 {
                None
            } else {
                let x = s[1] as nat + s[2] as nat * 256 + s[3] as nat * 65536
                    + s[4] as nat * 16777216;
                if x > 0x3fffffff {
                    Some((x as u32, 5))
                } else {
                    None
                }
            }
        }
    }
}

/// Relies on `parity_scale_codec::Compact::<u32>::decode` over a byte
/// slice: it reads one compact integer from the front of `bytes[pos..]`,
/// exactly as [`spec_compact_u32`] states, leaving the rest of the slice;
/// `remaining` is the length of that rest.
#[verifier::external_body]
pub fn decode_compact_u32(bytes: &Vec<u8>, pos: usize) -> (r: Option<(u32, usize)>)
    requires
        pos <= bytes.len(),
    ensures
        ({
            let tail = bytes@.skip(pos as int);
            match r {
                Some((value, remaining)) => remaining <= tail.len()
                    && spec_compact_u32(tail) == Some::<(u32, int)>(
                        (value, tail.len() - remaining as int),
                    ),
                None => spec_compact_u32(tail) is None,
            }
        }),
{
    let mut input: &[u8] = &bytes[pos..];
    match <parity_scale_codec::Compact<u32> as parity_scale_codec::Decode>::decode(&mut input) {
        Ok(c) => Some((c.0, input.len())),
        Err(_) => None,
    }
}

} // verus!
