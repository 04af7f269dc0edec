//! Little-endian integers inside byte buffers.
//!
//! Every binary structure of the boot path (the kernel image, the memory-map
//! descriptors, the handoff block) stores its integers least significant byte
//! first. The spec functions here say what such a field is worth; the
//! executable readers and writers are proved against them.

use vstd::prelude::*;

verus! {

/// Value of the two bytes of `s` that start at `at`.
pub open spec fn le_u16(s: Seq<u8>, at: int) -> int {
    s[at] as int + 0x100 * (s[at + 1] as int)
}

/// Value of the four bytes of `s` that start at `at`.
pub open spec fn le_u32(s: Seq<u8>, at: int) -> int {
    s[at] as int + 0x100 * (s[at + 1] as int) + 0x1_0000 * (s[at + 2] as int) + 0x100_0000 * (s[at
        + 3] as int)
}

/// Value of the eight bytes of `s` that start at `at`.
pub open spec fn le_u64(s: Seq<u8>, at: int) -> int {
    le_u32(s, at) + 0x1_0000_0000 * le_u32(s, at + 4)
}

/// The two bytes that encode `v`, least significant first.
pub open spec fn u16_bytes(v: u16) -> Seq<u8> {
    seq![(v % 0x100) as u8, (v / 0x100) as u8]
}

/// The four bytes that encode `v`, least significant first.
pub open spec fn u32_bytes(v: u32) -> Seq<u8> {
    seq![
        (v % 0x100) as u8,
        ((v / 0x100) % 0x100) as u8,
        ((v / 0x1_0000) % 0x100) as u8,
        ((v / 0x100_0000) % 0x100) as u8,
    ]
}

/// The eight bytes that encode `v`, least significant first: the low half, then
/// the high half.
pub open spec fn u64_bytes(v: u64) -> Seq<u8> {
    u32_bytes((v % 0x1_0000_0000) as u32) + u32_bytes((v / 0x1_0000_0000) as u32)
}

/// Decoding the encoding of a 16-bit value gives the value back, wherever the
/// two bytes lie in a buffer.
pub proof fn lemma_u16_round_trip(s: Seq<u8>, at: int, v: u16)
    requires
        0 <= at,
        at + 2 <= s.len(),
        s.subrange(at, at + 2) == u16_bytes(v),
    ensures
        le_u16(s, at) == v,
{
    let b = s.subrange(at, at + 2);
    assert(b[0] == s[at] && b[1] == s[at + 1]);
}

/// Decoding the encoding of a 32-bit value gives the value back, wherever the
/// four bytes lie in a buffer.
pub proof fn lemma_u32_round_trip(s: Seq<u8>, at: int, v: u32)
    requires
        0 <= at,
        at + 4 <= s.len(),
        s.subrange(at, at + 4) == u32_bytes(v),
    ensures
        le_u32(s, at) == v,
{
    let b = s.subrange(at, at + 4);
    assert(b[0] == s[at] && b[1] == s[at + 1] && b[2] == s[at + 2] && b[3] == s[at + 3]);
}

/// Decoding the encoding of a 64-bit value gives the value back, wherever the
/// eight bytes lie in a buffer.
pub proof fn lemma_u64_round_trip(s: Seq<u8>, at: int, v: u64)
    requires
        0 <= at,
        at + 8 <= s.len(),
        s.subrange(at, at + 8) == u64_bytes(v),
    ensures
        le_u64(s, at) == v,
{
    let lo = (v % 0x1_0000_0000) as u32;
    let hi = (v / 0x1_0000_0000) as u32;
    assert(s.subrange(at, at + 4) =~= s.subrange(at, at + 8).subrange(0, 4));
    assert(s.subrange(at + 4, at + 8) =~= s.subrange(at, at + 8).subrange(4, 8));
    assert(u64_bytes(v).subrange(0, 4) =~= u32_bytes(lo));
    assert(u64_bytes(v).subrange(4, 8) =~= u32_bytes(hi));
    lemma_u32_round_trip(s, at, lo);
    lemma_u32_round_trip(s, at + 4, hi);
}

/// A 32-bit field of the first of two joined byte strings lies at the same
/// offset in the whole; one of the second lies further by the length of the
/// first.
pub proof fn lemma_le_u32_joined(a: Seq<u8>, b: Seq<u8>, at: int)
    requires
        0 <= at,
    ensures
        at + 4 <= a.len() ==> le_u32(a + b, at) == le_u32(a, at),
        at + 4 <= b.len() ==> le_u32(a + b, a.len() + at) == le_u32(b, at),
{
}

/// A 64-bit field of the first of two joined byte strings lies at the same
/// offset in the whole; one of the second lies further by the length of the
/// first.
pub proof fn lemma_le_u64_joined(a: Seq<u8>, b: Seq<u8>, at: int)
    requires
        0 <= at,
    ensures
        at + 8 <= a.len() ==> le_u64(a + b, at) == le_u64(a, at),
        at + 8 <= b.len() ==> le_u64(a + b, a.len() + at) == le_u64(b, at),
{
}

/// Reads the 16-bit field at `at`.
pub fn read_u16(data: &[u8], at: usize) -> (v: u16)
    requires
        at + 2 <= data.len(),
    ensures
        v == le_u16(data@, at as int),
{
    let b0: u16 = data[at] as u16;
    let b1: u16 = data[at + 1] as u16;
    b0 + 0x100 * b1
}

/// Reads the 32-bit field at `at`.
pub fn read_u32(data: &[u8], at: usize) -> (v: u32)
    requires
        at + 4 <= data.len(),
    ensures
        v == le_u32(data@, at as int),
{
    let b0: u32 = data[at] as u32;
    let b1: u32 = data[at + 1] as u32;
    let b2: u32 = data[at + 2] as u32;
    let b3: u32 = data[at + 3] as u32;
    b0 + 0x100 * b1 + 0x1_0000 * b2 + 0x100_0000 * b3
}

/// Reads the 64-bit field at `at`.
pub fn read_u64(data: &[u8], at: usize) -> (v: u64)
    requires
        at + 8 <= data.len(),
    ensures
        v == le_u64(data@, at as int),
{
    let lo: u64 = read_u32(data, at) as u64;
    let hi: u64 = read_u32(data, at + 4) as u64;
    lo + 0x1_0000_0000 * hi
}

/// Appends the two bytes of `v` to `out`.
pub fn write_u16(out: &mut Vec<u8>, v: u16)
    ensures
        final(out)@ == old(out)@ + u16_bytes(v),
{
    out.push((v % 0x100) as u8);
    out.push((v / 0x100) as u8);
    assert(out@ =~= old(out)@ + u16_bytes(v));
}

/// Appends the four bytes of `v` to `out`.
pub fn write_u32(out: &mut Vec<u8>, v: u32)
    ensures
        final(out)@ == old(out)@ + u32_bytes(v),
{
    out.push((v % 0x100) as u8);
    out.push(((v / 0x100) % 0x100) as u8);
    out.push(((v / 0x1_0000) % 0x100) as u8);
    out.push(((v / 0x100_0000) % 0x100) as u8);
    assert(out@ =~= old(out)@ + u32_bytes(v));
}

/// Appends the eight bytes of `v` to `out`.
pub fn write_u64(out: &mut Vec<u8>, v: u64)
    ensures
        final(out)@ == old(out)@ + u64_bytes(v),
{
    write_u32(out, (v % 0x1_0000_0000) as u32);
    write_u32(out, (v / 0x1_0000_0000) as u32);
    assert(out@ =~= old(out)@ + u64_bytes(v));
}

} // verus!
