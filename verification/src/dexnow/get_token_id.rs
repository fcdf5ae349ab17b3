//! Deriving the on-chain address of a token account: the 32-byte seed is the
//! token's mint key with its last four bytes overwritten by the engine
//! version. The derivation and lookups are RPC work outside the library.

use super::TAccountKey;
use super::read_int_uint::u32_le_bytes;
use super::read_int_uint::u32_le_seq;
use vstd::prelude::*;

verus! {

/// The 32-byte seed of a token account for a given mint and engine version.
pub fn get_token_id_seed(mint: &TAccountKey, version: u32) -> (r: [u8; 32])
    ensures
        r@ == mint@.subrange(0, 28) + u32_le_seq(version),
{
    let mut buf: TAccountKey = *mint;
    let w = u32_le_bytes(version);
    let mut i: usize = 0;
    while i < 4
        invariant
            i <= 4,
            buf@.len() == 32,
            w@ == u32_le_seq(version),
            forall|j: int| 0 <= j < 28 ==> buf@[j] == mint@[j],
            forall|j: int| 0 <= j < i ==> buf@[j + 28] == w@[j],
        decreases 4 - i,
    {
        buf[i + 28] = w[i];
        i = i + 1;
    }
    proof {
        assert(buf@ =~= mint@.subrange(0, 28) + u32_le_seq(version));
    }
    buf
}

} // verus!
