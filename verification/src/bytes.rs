//! Byte buffers: appending, and the integer layouts that the wire formats use.

use vstd::prelude::*;

verus! {

/// The two bytes of `v`, least significant first.
pub open spec fn le16(v: u16) -> Seq<u8> {
    seq![(v % 256) as u8, (v / 256) as u8]
}

/// The number that four bytes spell, most significant first.
pub open spec fn be32(b0: u8, b1: u8, b2: u8, b3: u8) -> nat {
    (b0 as nat) * 0x1000000 + (b1 as nat) * 0x10000 + (b2 as nat) * 0x100 + (b3 as nat)
}

/// Appends `tail` to `out`.
pub fn append(out: &mut Vec<u8>, tail: &[u8])
    ensures
        final(out)@ == old(out)@ + tail@,
{
    let ghost before = out@;
    out.extend_from_slice(tail);
    assert(out@ =~= before + tail@);
}

/// Appends the two bytes of `v`, least significant first.
pub fn append_le16(out: &mut Vec<u8>, v: u16)
    ensures
        final(out)@ == old(out)@ + le16(v),
{
    let ghost before = out@;
    out.push((v % 256) as u8);
    out.push((v / 256) as u8);
    assert(out@ =~= before + le16(v));
}

/// A copy of `data`.
pub fn copy(data: &[u8]) -> (r: Vec<u8>)
    ensures
        r@ == data@,
{
    let mut out: Vec<u8> = Vec::with_capacity(data.len());
    append(&mut out, data);
    assert(out@ =~= data@);
    out
}

/// Reads four bytes of `data` from `i` on, most significant first.
pub fn read_be32(data: &[u8], i: usize) -> (r: u32)
    requires
        i + 4 <= data@.len(),
    ensures
        r == be32(data@[i as int], data@[i + 1], data@[i + 2], data@[i + 3]),
{
    (data[i] as u32) * 0x1000000 + (data[i + 1] as u32) * 0x10000 + (data[i + 2] as u32) * 0x100 + (
    data[i + 3] as u32)
}

/// Two numbers with the same little-endian bytes are the same number.
pub proof fn le16_is_injective(a: u16, b: u16)
    requires
        le16(a) == le16(b),
    ensures
        a == b,
{
    assert(le16(a)[0] == le16(b)[0]);
    assert(le16(a)[1] == le16(b)[1]);
}

/// The low byte of a number comes first, and 256 times the second one is the rest.
pub proof fn le16_begins_with_the_low_byte(v: u16)
    ensures
        le16(v).len() == 2,
        le16(v)[0] + 256 * le16(v)[1] == v,
{
}

/// One byte more at the end makes 256 times the number and that byte; a single byte is itself.
pub proof fn be32_ends_with_the_low_byte(b0: u8, b1: u8, b2: u8, b3: u8)
    ensures
        be32(0, 0, 0, b3) == b3,
        be32(b0, b1, b2, b3) == 256 * be32(0, b0, b1, b2) + b3,
{
}

} // verus!
