//! Little-endian integer readers over raw account bytes.

use vstd::prelude::*;

verus! {

/// The unsigned value of 4 little-endian bytes.
pub open spec fn le_bytes_u32(s: Seq<u8>) -> int {
    s[0] + s[1] * 0x100 + s[2] * 0x1_0000 + s[3] * 0x100_0000
}

/// The unsigned value of 8 little-endian bytes.
pub open spec fn le_bytes_u64(s: Seq<u8>) -> int {
    s[0] + s[1] * 0x100 + s[2] * 0x1_0000 + s[3] * 0x100_0000 + s[4] * 0x1_0000_0000 + s[5]
        * 0x100_0000_0000 + s[6] * 0x1_0000_0000_0000 + s[7] * 0x100_0000_0000_0000
}

/// The two's-complement value of 4 little-endian bytes.
pub open spec fn le_bytes_i32(s: Seq<u8>) -> int {
    if le_bytes_u32(s) < 0x8000_0000 {
        le_bytes_u32(s)
    } else {
        le_bytes_u32(s) - 0x1_0000_0000
    }
}

/// The two's-complement value of 8 little-endian bytes.
pub open spec fn le_bytes_i64(s: Seq<u8>) -> int {
    if le_bytes_u64(s) < 0x8000_0000_0000_0000 {
        le_bytes_u64(s)
    } else {
        le_bytes_u64(s) - 0x1_0000_0000_0000_0000
    }
}

/// The four little-endian bytes of an unsigned 32-bit value.
pub open spec fn u32_le_seq(v: u32) -> Seq<u8> {
    seq![
        (v % 0x100) as u8,
        ((v / 0x100) % 0x100) as u8,
        ((v / 0x1_0000) % 0x100) as u8,
        ((v / 0x100_0000) % 0x100) as u8,
    ]
}

/// Writes an unsigned 32-bit value as its four little-endian bytes.
pub fn u32_le_bytes(v: u32) -> (r: [u8; 4])
    ensures
        r@ == u32_le_seq(v),
{
    let r: [u8; 4] = [
        (v % 0x100) as u8,
        ((v / 0x100) % 0x100) as u8,
        ((v / 0x1_0000) % 0x100) as u8,
        ((v / 0x100_0000) % 0x100) as u8,
    ];
    proof {
        assert(r@ =~= u32_le_seq(v));
    }
    r
}

/// Reading four little-endian bytes back gives the value they were written
/// from.
pub proof fn lemma_u32_le_roundtrip(v: u32)
    ensures
        le_bytes_u32(u32_le_seq(v)) == v,
{
    let s = u32_le_seq(v);
    assert(s[0] + s[1] * 0x100 + s[2] * 0x1_0000 + s[3] * 0x100_0000 == v) by (nonlinear_arith)
        requires
            s[0] == v % 0x100,
            s[1] == (v / 0x100) % 0x100,
            s[2] == (v / 0x1_0000) % 0x100,
            s[3] == (v / 0x100_0000) % 0x100,
    ;
}

/// Helper function to read an i32 from a byte slice.
pub fn read_i32(data: &[u8], offset: usize) -> (r: i32)
    requires
        offset + 4 <= data@.len(),
    ensures
        r == le_bytes_i32(data@.subrange(offset as int, offset + 4)),
{
    let u = read_u32(data, offset);
    if u < 0x8000_0000 {
        u as i32
    } else {
        ((u as i64) - 0x1_0000_0000i64) as i32
    }
}

/// Helper function to read an u32 from a byte slice.
pub fn read_u32(data: &[u8], offset: usize) -> (r: u32)
    requires
        offset + 4 <= data@.len(),
    ensures
        r == le_bytes_u32(data@.subrange(offset as int, offset + 4)),
{
    let b0 = data[offset] as u32;
    let b1 = data[offset + 1] as u32;
    let b2 = data[offset + 2] as u32;
    let b3 = data[offset + 3] as u32;
    b0 + b1 * 0x100 + b2 * 0x1_0000 + b3 * 0x100_0000
}

/// Helper function to read an i64 from a byte slice.
pub fn read_i64(data: &[u8], offset: usize) -> (r: i64)
    requires
        offset + 8 <= data@.len(),
    ensures
        r == le_bytes_i64(data@.subrange(offset as int, offset + 8)),
{
    let u = read_u64(data, offset);
    if u < 0x8000_0000_0000_0000 {
        u as i64
    } else {
        ((u as i128) - 0x1_0000_0000_0000_0000i128) as i64
    }
}

/// Helper function to read an u64 from a byte slice.
pub fn read_u64(data: &[u8], offset: usize) -> (r: u64)
    requires
        offset + 8 <= data@.len(),
    ensures
        r == le_bytes_u64(data@.subrange(offset as int, offset + 8)),
{
    let b0 = data[offset] as u64;
    let b1 = data[offset + 1] as u64;
    let b2 = data[offset + 2] as u64;
    let b3 = data[offset + 3] as u64;
    let b4 = data[offset + 4] as u64;
    let b5 = data[offset + 5] as u64;
    let b6 = data[offset + 6] as u64;
    let b7 = data[offset + 7] as u64;
    b0 + b1 * 0x100 + b2 * 0x1_0000 + b3 * 0x100_0000 + b4 * 0x1_0000_0000 + b5
        * 0x100_0000_0000 + b6 * 0x1_0000_0000_0000 + b7 * 0x100_0000_0000_0000
}

} // verus!
