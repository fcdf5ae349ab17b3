//! Readers for the basic field types of on-chain accounts.

use super::TAccountKey;
use super::read_int_uint::le_bytes_i64;
use super::read_int_uint::le_bytes_u32;
use vstd::prelude::*;

verus! {

/// Helper function to read an u32 from an immutable byte slice.
pub fn read_u32(data: &[u8], offset: usize) -> (r: u32)
    requires
        offset + 4 <= data@.len(),
    ensures
        r == le_bytes_u32(data@.subrange(offset as int, offset + 4)),
{
    super::read_int_uint::read_u32(data, offset)
}

/// Helper function to read an i64 from an immutable byte slice.
pub fn read_i64(data: &[u8], offset: usize) -> (r: i64)
    requires
        offset + 8 <= data@.len(),
    ensures
        r == le_bytes_i64(data@.subrange(offset as int, offset + 8)),
{
    super::read_int_uint::read_i64(data, offset)
}

/// Reads a 32-byte account key, or reports the data too short.
pub fn read_pubkey(data: &[u8], offset: usize) -> (r: Result<TAccountKey, ()>)
    ensures
        r is Ok <==> offset + 32 <= data@.len(),
        r matches Ok(k) ==> k@ == data@.subrange(offset as int, offset + 32),
{
    if data.len() < 32 || offset > data.len() - 32 {
        return Err(());
    }
    let mut key: TAccountKey = [0u8; 32];
    let mut i: usize = 0;
    while i < 32
        invariant
            i <= 32,
            data@.len() <= usize::MAX,
            offset + 32 <= data@.len(),
            key@.len() == 32,
            forall|j: int| 0 <= j < i ==> key@[j] == data@[offset + j],
        decreases 32 - i,
    {
        key[i] = data[offset + i];
        i = i + 1;
    }
    proof {
        assert(key@ =~= data@.subrange(offset as int, offset + 32));
    }
    Ok(key)
}

} // verus!
