//! Little-endian encoding of 32-bit words, field by field.
//!
//! The persisted account layout is fixed-width little-endian with no
//! padding, so the codec is written out explicitly rather than relying on
//! any native struct layout; the contracts pin every byte.

use vstd::prelude::*;

verus! {

/// The unsigned 32-bit value stored little-endian in a four-byte sequence.
pub open spec fn u32_from_le_bytes(b: Seq<u8>) -> u32
    recommends
        b.len() == 4,
{
    (b[0] + b[1] * 0x100 + b[2] * 0x10000 + b[3] * 0x1000000) as u32
}

/// The four-byte little-endian image of an unsigned 32-bit value.
pub open spec fn u32_to_le_bytes(v: u32) -> Seq<u8> {
    seq![
        (v % 0x100) as u8,
        ((v / 0x100) % 0x100) as u8,
        ((v / 0x10000) % 0x100) as u8,
        ((v / 0x1000000) % 0x100) as u8,
    ]
}

/// Reads the little-endian word stored at `data[offset..offset + 4]`.
pub fn read_u32_le(data: &[u8], offset: usize) -> (v: u32)
    requires
        offset + 4 <= data@.len(),
    ensures
        v == u32_from_le_bytes(data@.subrange(offset as int, offset as int + 4)),
{
    let b0: u32 = data[offset] as u32;
    let b1: u32 = data[offset + 1] as u32;
    let b2: u32 = data[offset + 2] as u32;
    let b3: u32 = data[offset + 3] as u32;
    b0 + b1 * 0x100 + b2 * 0x10000 + b3 * 0x1000000
}

/// Appends the four little-endian bytes of `v` to `out`.
pub fn write_u32_le(v: u32, out: &mut Vec<u8>)
    ensures
        final(out)@ == old(out)@ + u32_to_le_bytes(v),
{
    out.push((v % 0x100) as u8);
    out.push(((v / 0x100) % 0x100) as u8);
    out.push(((v / 0x10000) % 0x100) as u8);
    out.push(((v / 0x1000000) % 0x100) as u8);
    proof {
        assert(out@ =~= old(out)@ + u32_to_le_bytes(v));
    }
}

/// Decoding undoes encoding: the word read back from the four bytes of `v`
/// is `v` itself.
pub proof fn lemma_u32_le_round_trip(v: u32)
    ensures
        u32_from_le_bytes(u32_to_le_bytes(v)) == v,
{
    assert(v == (v % 0x100) + ((v / 0x100) % 0x100) * 0x100 + ((v / 0x10000) % 0x100) * 0x10000
        + ((v / 0x1000000) % 0x100) * 0x1000000) by (bit_vector);
}

/// Encoding undoes decoding: any four bytes are the little-endian image of
/// the word they store.
pub proof fn lemma_le_bytes_round_trip(b: Seq<u8>)
    requires
        b.len() == 4,
    ensures
        u32_to_le_bytes(u32_from_le_bytes(b)) == b,
{
    let b0 = b[0];
    let b1 = b[1];
    let b2 = b[2];
    let b3 = b[3];
    let v = u32_from_le_bytes(b);
    assert(v == b0 as u32 + b1 as u32 * 0x100 + b2 as u32 * 0x10000 + b3 as u32 * 0x1000000);
    assert(v % 0x100 == b0 && (v / 0x100) % 0x100 == b1 && (v / 0x10000) % 0x100 == b2
        && (v / 0x1000000) % 0x100 == b3) by (bit_vector)
        requires
            v == b0 as u32 + b1 as u32 * 0x100 + b2 as u32 * 0x10000 + b3 as u32 * 0x1000000,
    ;
    assert(u32_to_le_bytes(v) =~= b);
}

} // verus!
