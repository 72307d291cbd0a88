//! The byte order of the header: every multi-byte field travels
//! little-endian, least significant byte first.

use vstd::prelude::*;

verus! {

/// The value two little-endian bytes stand for.
pub open spec fn le16_value(b0: u8, b1: u8) -> u16 {
    (b0 + b1 * 0x100) as u16
}

/// The value four little-endian bytes stand for.
pub open spec fn le32_value(b0: u8, b1: u8, b2: u8, b3: u8) -> u32 {
    (b0 + b1 * 0x100 + b2 * 0x10000 + b3 * 0x1000000) as u32
}

/// The two little-endian bytes of a 16-bit value.
pub open spec fn le16_bytes(v: u16) -> Seq<u8> {
    seq![(v % 0x100) as u8, (v / 0x100) as u8]
}

/// The four little-endian bytes of a 32-bit value.
pub open spec fn le32_bytes(v: u32) -> Seq<u8> {
    seq![
        (v % 0x100) as u8,
        ((v / 0x100) % 0x100) as u8,
        ((v / 0x10000) % 0x100) as u8,
        (v / 0x1000000) as u8,
    ]
}

/// Reading a 16-bit value back from its own little-endian bytes gives the
/// value.
pub proof fn lemma_le16_round(v: u16)
    ensures
        le16_value(le16_bytes(v)[0], le16_bytes(v)[1]) == v,
{
    assert(v / 0x100 < 0x100) by (bit_vector);
    assert(v % 0x100 + (v / 0x100) * 0x100 == v) by (bit_vector);
}

/// Reading a 32-bit value back from its own little-endian bytes gives the
/// value.
pub proof fn lemma_le32_round(v: u32)
    ensures
        le32_value(le32_bytes(v)[0], le32_bytes(v)[1], le32_bytes(v)[2], le32_bytes(v)[3]) == v,
{
    assert(v / 0x1000000 < 0x100) by (bit_vector);
    assert(v % 0x100 + ((v / 0x100) % 0x100) * 0x100 + ((v / 0x10000) % 0x100) * 0x10000 + (v
        / 0x1000000) * 0x1000000 == v) by (bit_vector);
}

/// Assembles a 16-bit value from its two little-endian bytes.
pub fn le16_read(b0: u8, b1: u8) -> (v: u16)
    ensures
        v == le16_value(b0, b1),
{
    b0 as u16 + b1 as u16 * 0x100
}

/// Assembles a 32-bit value from its four little-endian bytes.
pub fn le32_read(b0: u8, b1: u8, b2: u8, b3: u8) -> (v: u32)
    ensures
        v == le32_value(b0, b1, b2, b3),
{
    b0 as u32 + b1 as u32 * 0x100 + b2 as u32 * 0x10000 + b3 as u32 * 0x1000000
}

/// Appends the two little-endian bytes of a 16-bit value.
pub fn le16_push(out: &mut Vec<u8>, v: u16)
    ensures
        final(out)@ == old(out)@ + le16_bytes(v),
{
    out.push((v % 0x100) as u8);
    out.push((v / 0x100) as u8);
    proof {
        assert(out@ =~= old(out)@ + le16_bytes(v));
    }
}

/// Appends the four little-endian bytes of a 32-bit value.
pub fn le32_push(out: &mut Vec<u8>, v: u32)
    ensures
        final(out)@ == old(out)@ + le32_bytes(v),
{
    out.push((v % 0x100) as u8);
    out.push(((v / 0x100) % 0x100) as u8);
    out.push(((v / 0x10000) % 0x100) as u8);
    out.push((v / 0x1000000) as u8);
    proof {
        assert(out@ =~= old(out)@ + le32_bytes(v));
    }
}

} // verus!
