//! Little-endian integers on the wire.

use vstd::prelude::*;

verus! {

/// The `u16` stored little-endian at `b[i]`, `b[i + 1]`.
pub open spec fn le_u16(b: Seq<u8>, i: int) -> u16 {
    (b[i] as int + 256 * b[i + 1] as int) as u16
}

/// The `u32` stored little-endian at `b[i]` .. `b[i + 3]`.
pub open spec fn le_u32(b: Seq<u8>, i: int) -> u32 {
    (b[i] as int + 256 * b[i + 1] as int + 65536 * b[i + 2] as int + 16777216 * b[i
        + 3] as int) as u32
}

/// The two bytes of `v`, low byte first.
pub open spec fn u16_bytes(v: u16) -> Seq<u8> {
    seq![(v % 256) as u8, (v / 256) as u8]
}

/// The four bytes of `v`, low byte first.
pub open spec fn u32_bytes(v: u32) -> Seq<u8> {
    seq![(v % 256) as u8, (v / 256 % 256) as u8, (v / 65536 % 256) as u8, (v / 16777216) as u8]
}

pub proof fn lemma_u16_round_trip(v: u16, rest: Seq<u8>)
    ensures
        le_u16(u16_bytes(v) + rest, 0) == v,
{
    let b = u16_bytes(v) + rest;
    assert(b[0] == v % 256 && b[1] == v / 256);
}

pub proof fn lemma_u32_round_trip(v: u32, rest: Seq<u8>)
    ensures
        le_u32(u32_bytes(v) + rest, 0) == v,
{
    let b = u32_bytes(v) + rest;
    assert(b[0] == v % 256 && b[1] == v / 256 % 256 && b[2] == v / 65536 % 256 && b[3] == v
        / 16777216);
}

pub fn read_u8(src: &[u8], pos: usize) -> (r: u8)
    requires
        pos < src@.len(),
    ensures
        r == src@[pos as int],
{
    src[pos]
}

pub fn read_u16(src: &[u8], pos: usize) -> (r: u16)
    requires
        pos + 2 <= src@.len(),
    ensures
        r == le_u16(src@, pos as int),
{
    src[pos] as u16 + (src[pos + 1] as u16) * 256
}

pub fn read_u32(src: &[u8], pos: usize) -> (r: u32)
    requires
        pos + 4 <= src@.len(),
    ensures
        r == le_u32(src@, pos as int),
{
    src[pos] as u32 + (src[pos + 1] as u32) * 256 + (src[pos + 2] as u32) * 65536 + (src[pos
        + 3] as u32) * 16777216
}

pub fn write_u8(dst: &mut Vec<u8>, v: u8)
    ensures
        final(dst)@ == old(dst)@.push(v),
{
    dst.push(v);
}

pub fn write_u16(dst: &mut Vec<u8>, v: u16)
    ensures
        final(dst)@ == old(dst)@ + u16_bytes(v),
{
    dst.push((v % 256) as u8);
    dst.push((v / 256) as u8);
    assert(final(dst)@ =~= old(dst)@ + u16_bytes(v));
}

pub fn write_u32(dst: &mut Vec<u8>, v: u32)
    ensures
        final(dst)@ == old(dst)@ + u32_bytes(v),
{
    dst.push((v % 256) as u8);
    dst.push((v / 256 % 256) as u8);
    dst.push((v / 65536 % 256) as u8);
    dst.push((v / 16777216) as u8);
    assert(final(dst)@ =~= old(dst)@ + u32_bytes(v));
}

pub fn write_bytes(dst: &mut Vec<u8>, b: &[u8])
    ensures
        final(dst)@ == old(dst)@ + b@,
{
    let mut i: usize = 0;
    while i < b.len()
        invariant
            i <= b@.len(),
            dst@ == old(dst)@ + b@.take(i as int),
        decreases b@.len() - i,
    {
        dst.push(b[i]);
        i = i + 1;
        assert(dst@ =~= old(dst)@ + b@.take(i as int));
    }
    assert(b@.take(i as int) =~= b@);
}

} // verus!

verus! {

/// Two bytes that are the encoding of `v` read back as `v`.
pub proof fn lemma_le_u16_of(b: Seq<u8>, k: int, v: u16)
    requires
        0 <= k,
        k + 2 <= b.len(),
        b.subrange(k, k + 2) == u16_bytes(v),
    ensures
        le_u16(b, k) == v,
{
    lemma_u16_round_trip(v, seq![]);
    assert(u16_bytes(v) + seq![] =~= u16_bytes(v));
    assert(b[k] == b.subrange(k, k + 2)[0]);
    assert(b[k + 1] == b.subrange(k, k + 2)[1]);
}

/// Four bytes that are the encoding of `v` read back as `v`.
pub proof fn lemma_le_u32_of(b: Seq<u8>, k: int, v: u32)
    requires
        0 <= k,
        k + 4 <= b.len(),
        b.subrange(k, k + 4) == u32_bytes(v),
    ensures
        le_u32(b, k) == v,
{
    lemma_u32_round_trip(v, seq![]);
    assert(u32_bytes(v) + seq![] =~= u32_bytes(v));
    assert(b[k] == b.subrange(k, k + 4)[0]);
    assert(b[k + 1] == b.subrange(k, k + 4)[1]);
    assert(b[k + 2] == b.subrange(k, k + 4)[2]);
    assert(b[k + 3] == b.subrange(k, k + 4)[3]);
}

} // verus!
