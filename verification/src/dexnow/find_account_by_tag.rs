//! The tag filter that finds venue accounts of one kind: an 8-byte prefix
//! (tag, then engine version, little-endian), base64-encoded for the RPC
//! memcmp filter. The account enumeration itself is RPC work outside the
//! library.

use super::read_int_uint::u32_le_bytes;
use super::read_int_uint::u32_le_seq;
use base64::Engine;
use vstd::prelude::*;

verus! {

/// What base64's standard-alphabet encoder returns for a byte string.
pub uninterp spec fn base64_of(bytes: Seq<u8>) -> Seq<char>;

/// Relies on base64's `Engine::encode` with the `STANDARD` engine: the text
/// depends on the input bytes alone; with padding it is four characters per
/// three-byte group.
#[verifier::external_body]
fn base64_encode(bytes: &[u8]) -> (r: String)
    ensures
        r@ == base64_of(bytes@),
        r@.len() == 4 * ((bytes@.len() + 2) / 3),
{
    base64::engine::general_purpose::STANDARD.encode(bytes)
}

/// The 8-byte account prefix carrying an account-kind tag and the engine
/// version, both little-endian.
pub fn tag_filter_bytes(tag: u32, version: u32) -> (r: [u8; 8])
    ensures
        r@ == u32_le_seq(tag) + u32_le_seq(version),
{
    let mut buf: [u8; 8] = [0u8; 8];
    let w0 = u32_le_bytes(tag);
    let w1 = u32_le_bytes(version);
    let mut i: usize = 0;
    while i < 4
        invariant
            i <= 4,
            buf@.len() == 8,
            w0@ == u32_le_seq(tag),
            w1@ == u32_le_seq(version),
            forall|j: int| 0 <= j < i ==> buf@[j] == w0@[j] && buf@[j + 4] == w1@[j],
        decreases 4 - i,
    {
        buf[i] = w0[i];
        buf[i + 4] = w1[i];
        i = i + 1;
    }
    proof {
        assert(buf@ =~= u32_le_seq(tag) + u32_le_seq(version));
    }
    buf
}

/// The base64 text of the tag filter, as the RPC memcmp filter carries it.
pub fn encoded_tag_filter(tag: u32, version: u32) -> (r: String)
    ensures
        r@ == base64_of(u32_le_seq(tag) + u32_le_seq(version)),
{
    let buf = tag_filter_bytes(tag, version);
    base64_encode(&buf)
}

} // verus!
