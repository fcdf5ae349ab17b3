//! Deriving the on-chain address of an instrument's static account: the
//! 16-byte seed the program-address derivation starts from, and the id
//! extraction from the sliced account read that confirms a candidate
//! address. The derivation itself and the account lookups are RPC work
//! outside the library.

use super::constants::INSTR_STATIC_TAG;
use super::read_int_uint::le_bytes_u32;
use super::read_int_uint::u32_le_bytes;
use super::read_int_uint::u32_le_seq;
use vstd::prelude::*;

verus! {

pub struct GetInstrIdArgs {
    pub asset_token_id: u32,
    pub base_crncy_token_id: u32,
}

/// The 16-byte seed of an instrument's static account: engine version, the
/// instrument-static tag, then the two token ids, each little-endian.
pub fn get_instr_id_seed(version: u32, args: &GetInstrIdArgs) -> (r: [u8; 16])
    ensures
        r@ == u32_le_seq(version) + u32_le_seq(INSTR_STATIC_TAG) + u32_le_seq(
            args.asset_token_id,
        ) + u32_le_seq(args.base_crncy_token_id),
{
    let mut buf: [u8; 16] = [0u8; 16];
    let w0 = u32_le_bytes(version);
    let w1 = u32_le_bytes(INSTR_STATIC_TAG);
    let w2 = u32_le_bytes(args.asset_token_id);
    let w3 = u32_le_bytes(args.base_crncy_token_id);
    let mut i: usize = 0;
    while i < 4
        invariant
            i <= 4,
            buf@.len() == 16,
            w0@ == u32_le_seq(version),
            w1@ == u32_le_seq(INSTR_STATIC_TAG),
            w2@ == u32_le_seq(args.asset_token_id),
            w3@ == u32_le_seq(args.base_crncy_token_id),
            forall|j: int|
                0 <= j < i ==> buf@[j] == w0@[j] && buf@[j + 4] == w1@[j] && buf@[j + 8]
                    == w2@[j] && buf@[j + 12] == w3@[j],
        decreases 4 - i,
    {
        buf[i] = w0[i];
        buf[i + 4] = w1[i];
        buf[i + 8] = w2[i];
        buf[i + 12] = w3[i];
        i = i + 1;
    }
    proof {
        assert(buf@ =~= u32_le_seq(version) + u32_le_seq(INSTR_STATIC_TAG) + u32_le_seq(
            args.asset_token_id,
        ) + u32_le_seq(args.base_crncy_token_id));
    }
    buf
}

/// The id carried in the first four bytes of a sliced account read, when
/// enough bytes came back.
pub fn account_id_from_data(data: &Vec<u8>) -> (r: Option<u32>)
    ensures
        r is Some <==> data@.len() >= 4,
        r matches Some(v) ==> v == le_bytes_u32(data@.subrange(0, 4)),
{
    if data.len() >= 4 {
        let b0 = data[0] as u32;
        let b1 = data[1] as u32;
        let b2 = data[2] as u32;
        let b3 = data[3] as u32;
        Some(b0 + b1 * 0x100 + b2 * 0x1_0000 + b3 * 0x100_0000)
    } else {
        None
    }
}

} // verus!
