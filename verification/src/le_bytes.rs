//! Little-endian byte layout of 64-bit values.
//!
//! The precheck payloads put their integer fields on the wire least
//! significant byte first; these helpers write and read that layout.

use vstd::prelude::*;

verus! {

/// The eight bytes of `x`, least significant first.
pub open spec fn le_bytes_of_u64(x: u64) -> Seq<u8> {
    seq![
        (x & 0xff) as u8,
        ((x >> 8) & 0xff) as u8,
        ((x >> 16) & 0xff) as u8,
        ((x >> 24) & 0xff) as u8,
        ((x >> 32) & 0xff) as u8,
        ((x >> 40) & 0xff) as u8,
        ((x >> 48) & 0xff) as u8,
        ((x >> 56) & 0xff) as u8,
    ]
}

/// The value whose little-endian bytes are `s`.
pub open spec fn u64_of_le_bytes(s: Seq<u8>) -> u64
    recommends
        s.len() == 8,
{
    (s[0] as u64) | ((s[1] as u64) << 8) | ((s[2] as u64) << 16) | ((s[3] as u64) << 24) | (
    (s[4] as u64) << 32) | ((s[5] as u64) << 40) | ((s[6] as u64) << 48) | ((s[7] as u64) << 56)
}

/// Reading back the written bytes gives the value again.
pub proof fn lemma_u64_le_roundtrip(x: u64)
    ensures
        u64_of_le_bytes(le_bytes_of_u64(x)) == x,
{
    let s = le_bytes_of_u64(x);
    assert(((x & 0xff) as u8) as u64 == (x & 0xff)) by (bit_vector);
    assert((((x >> 8) & 0xff) as u8) as u64 == ((x >> 8) & 0xff)) by (bit_vector);
    assert((((x >> 16) & 0xff) as u8) as u64 == ((x >> 16) & 0xff)) by (bit_vector);
    assert((((x >> 24) & 0xff) as u8) as u64 == ((x >> 24) & 0xff)) by (bit_vector);
    assert((((x >> 32) & 0xff) as u8) as u64 == ((x >> 32) & 0xff)) by (bit_vector);
    assert((((x >> 40) & 0xff) as u8) as u64 == ((x >> 40) & 0xff)) by (bit_vector);
    assert((((x >> 48) & 0xff) as u8) as u64 == ((x >> 48) & 0xff)) by (bit_vector);
    assert((((x >> 56) & 0xff) as u8) as u64 == ((x >> 56) & 0xff)) by (bit_vector);
    assert((x & 0xff) | (((x >> 8) & 0xff) << 8) | (((x >> 16) & 0xff) << 16) | (((x >> 24)
        & 0xff) << 24) | (((x >> 32) & 0xff) << 32) | (((x >> 40) & 0xff) << 40) | (((x >> 48)
        & 0xff) << 48) | (((x >> 56) & 0xff) << 56) == x) by (bit_vector);
}

/// The four bytes of `x`, least significant first.
pub open spec fn le_bytes_of_u32(x: u32) -> Seq<u8> {
    seq![
        (x & 0xff) as u8,
        ((x >> 8) & 0xff) as u8,
        ((x >> 16) & 0xff) as u8,
        ((x >> 24) & 0xff) as u8,
    ]
}

/// Appends the little-endian bytes of `x`.
pub fn push_u32_le(out: &mut Vec<u8>, x: u32)
    ensures
        final(out)@ == old(out)@ + le_bytes_of_u32(x),
{
    out.push((x & 0xff) as u8);
    out.push(((x >> 8) & 0xff) as u8);
    out.push(((x >> 16) & 0xff) as u8);
    out.push(((x >> 24) & 0xff) as u8);
    proof {
        assert(out@ =~= old(out)@ + le_bytes_of_u32(x));
    }
}

/// Appends the little-endian bytes of `x`.
pub fn push_u64_le(out: &mut Vec<u8>, x: u64)
    ensures
        final(out)@ == old(out)@ + le_bytes_of_u64(x),
{
    out.push((x & 0xff) as u8);
    out.push(((x >> 8) & 0xff) as u8);
    out.push(((x >> 16) & 0xff) as u8);
    out.push(((x >> 24) & 0xff) as u8);
    out.push(((x >> 32) & 0xff) as u8);
    out.push(((x >> 40) & 0xff) as u8);
    out.push(((x >> 48) & 0xff) as u8);
    out.push(((x >> 56) & 0xff) as u8);
    proof {
        assert(out@ =~= old(out)@ + le_bytes_of_u64(x));
    }
}

/// Reads the value whose little-endian bytes sit at `offset`.
pub fn read_u64_le_at(bytes: &Vec<u8>, offset: usize) -> (r: u64)
    requires
        offset + 8 <= bytes@.len(),
    ensures
        r == u64_of_le_bytes(bytes@.subrange(offset as int, offset as int + 8)),
{
    let n = bytes.len();
    assert(offset + 8 <= n);
    let r = (bytes[offset] as u64) | ((bytes[offset + 1] as u64) << 8) | ((bytes[offset + 2]
        as u64) << 16) | ((bytes[offset + 3] as u64) << 24) | ((bytes[offset + 4] as u64) << 32)
        | ((bytes[offset + 5] as u64) << 40) | ((bytes[offset + 6] as u64) << 48) | ((bytes[offset
        + 7] as u64) << 56);
    proof {
        let s = bytes@.subrange(offset as int, offset as int + 8);
        assert(s[0] == bytes@[offset as int]);
        assert(s[1] == bytes@[offset as int + 1]);
        assert(s[2] == bytes@[offset as int + 2]);
        assert(s[3] == bytes@[offset as int + 3]);
        assert(s[4] == bytes@[offset as int + 4]);
        assert(s[5] == bytes@[offset as int + 5]);
        assert(s[6] == bytes@[offset as int + 6]);
        assert(s[7] == bytes@[offset as int + 7]);
    }
    r
}

} // verus!
