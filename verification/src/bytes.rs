//! Little-endian integer fields, as they appear on the wire, with
//! proofs that encoding and decoding invert each other. Wider fields
//! are defined from narrower ones so each proof step stays small.

use vstd::prelude::*;

verus! {

/// The 16-bit value stored little-endian in a 2-byte sequence.
pub open spec fn le16_v(b: Seq<u8>) -> u16
    recommends
        b.len() == 2,
{
    (b[0] + b[1] * 0x100) as u16
}

/// The 2-byte little-endian encoding of a 16-bit value.
pub open spec fn le16_of(n: u16) -> Seq<u8> {
    seq![(n % 0x100) as u8, (n / 0x100) as u8]
}

/// The 32-bit value stored little-endian in a 4-byte sequence.
pub open spec fn le32_v(b: Seq<u8>) -> u32
    recommends
        b.len() == 4,
{
    (le16_v(b.subrange(0, 2)) + le16_v(b.subrange(2, 4)) * 0x10000) as u32
}

/// The 4-byte little-endian encoding of a 32-bit value.
pub open spec fn le32_of(n: u32) -> Seq<u8> {
    le16_of((n % 0x10000) as u16) + le16_of((n / 0x10000) as u16)
}

/// The 64-bit value stored little-endian in an 8-byte sequence.
pub open spec fn le64_v(b: Seq<u8>) -> u64
    recommends
        b.len() == 8,
{
    (le32_v(b.subrange(0, 4)) + le32_v(b.subrange(4, 8)) * 0x100000000) as u64
}

/// The 8-byte little-endian encoding of a 64-bit value.
pub open spec fn le64_of(n: u64) -> Seq<u8> {
    le32_of((n % 0x100000000) as u32) + le32_of((n / 0x100000000) as u32)
}

/// Encoding a decoded 2-byte field gives back the same bytes.
pub proof fn lemma_le16_of_v(b: Seq<u8>)
    requires
        b.len() == 2,
    ensures
        le16_of(le16_v(b)) == b,
{
    let b0 = b[0];
    let b1 = b[1];
    let n = le16_v(b);
    assert(n == b0 as u16 + b1 as u16 * 0x100 && n % 0x100 == b0 as u16 && n / 0x100
        == b1 as u16) by (bit_vector)
        requires
            n == (b0 + b1 * 0x100) as u16,
    ;
    assert(le16_of(n) =~= b);
}

/// Encoding a decoded 4-byte field gives back the same bytes.
pub proof fn lemma_le32_of_v(b: Seq<u8>)
    requires
        b.len() == 4,
    ensures
        le32_of(le32_v(b)) == b,
{
    let lo = le16_v(b.subrange(0, 2));
    let hi = le16_v(b.subrange(2, 4));
    let n = le32_v(b);
    assert(n % 0x10000 == lo as u32 && n / 0x10000 == hi as u32) by (bit_vector)
        requires
            n == (lo + hi * 0x10000) as u32,
    ;
    lemma_le16_of_v(b.subrange(0, 2));
    lemma_le16_of_v(b.subrange(2, 4));
    assert(le32_of(n) =~= b);
}

/// Encoding a decoded 8-byte field gives back the same bytes.
pub proof fn lemma_le64_of_v(b: Seq<u8>)
    requires
        b.len() == 8,
    ensures
        le64_of(le64_v(b)) == b,
{
    let lo = le32_v(b.subrange(0, 4));
    let hi = le32_v(b.subrange(4, 8));
    let n = le64_v(b);
    assert(n % 0x100000000 == lo as u64 && n / 0x100000000 == hi as u64) by (bit_vector)
        requires
            n == (lo + hi * 0x100000000) as u64,
    ;
    lemma_le32_of_v(b.subrange(0, 4));
    lemma_le32_of_v(b.subrange(4, 8));
    assert(le64_of(n) =~= b);
}

/// Reads the 16-bit little-endian field at `i`.
pub fn read_u16_le(b: &Vec<u8>, i: usize) -> (r: u16)
    requires
        i + 2 <= b@.len(),
    ensures
        r == le16_v(b@.subrange(i as int, i + 2)),
{
    let n = b.len();
    let r: u16 = b[i] as u16 + (b[i + 1] as u16) * 0x100;
    proof {
        let s = b@.subrange(i as int, i + 2);
        assert(s[0] == b@[i as int] && s[1] == b@[i + 1]);
    }
    r
}

/// Reads the 32-bit little-endian field at `i`.
pub fn read_u32_le(b: &Vec<u8>, i: usize) -> (r: u32)
    requires
        i + 4 <= b@.len(),
    ensures
        r == le32_v(b@.subrange(i as int, i + 4)),
{
    let n = b.len();
    let lo = read_u16_le(b, i);
    let hi = read_u16_le(b, i + 2);
    let r: u32 = lo as u32 + (hi as u32) * 0x10000;
    proof {
        let s = b@.subrange(i as int, i + 4);
        assert(s.subrange(0, 2) =~= b@.subrange(i as int, i + 2));
        assert(s.subrange(2, 4) =~= b@.subrange(i + 2, i + 4));
    }
    r
}

/// Reads the 64-bit little-endian field at `i`.
pub fn read_u64_le(b: &Vec<u8>, i: usize) -> (r: u64)
    requires
        i + 8 <= b@.len(),
    ensures
        r == le64_v(b@.subrange(i as int, i + 8)),
{
    let n = b.len();
    let lo = read_u32_le(b, i);
    let hi = read_u32_le(b, i + 4);
    let r: u64 = lo as u64 + (hi as u64) * 0x100000000;
    proof {
        let s = b@.subrange(i as int, i + 8);
        assert(s.subrange(0, 4) =~= b@.subrange(i as int, i + 4));
        assert(s.subrange(4, 8) =~= b@.subrange(i + 4, i + 8));
    }
    r
}

/// Appends the 2-byte little-endian encoding of `n`.
pub fn push_u16_le(out: &mut Vec<u8>, n: u16)
    ensures
        final(out)@ == old(out)@ + le16_of(n),
{
    out.push((n % 0x100) as u8);
    out.push((n / 0x100) as u8);
    assert(out@ =~= old(out)@ + le16_of(n));
}

/// Appends the 4-byte little-endian encoding of `n`.
pub fn push_u32_le(out: &mut Vec<u8>, n: u32)
    ensures
        final(out)@ == old(out)@ + le32_of(n),
{
    push_u16_le(out, (n % 0x10000) as u16);
    push_u16_le(out, (n / 0x10000) as u16);
    assert(out@ =~= old(out)@ + le32_of(n));
}

/// Appends the 8-byte little-endian encoding of `n`.
pub fn push_u64_le(out: &mut Vec<u8>, n: u64)
    ensures
        final(out)@ == old(out)@ + le64_of(n),
{
    push_u32_le(out, (n % 0x100000000) as u32);
    push_u32_le(out, (n / 0x100000000) as u32);
    assert(out@ =~= old(out)@ + le64_of(n));
}

/// Copies `b[start..end]` out of the buffer.
pub fn copy_range(b: &Vec<u8>, start: usize, end: usize) -> (r: Vec<u8>)
    requires
        start <= end <= b@.len(),
    ensures
        r@ == b@.subrange(start as int, end as int),
{
    let mut r: Vec<u8> = Vec::new();
    let mut i = start;
    while i < end
        invariant
            start <= i <= end <= b@.len(),
            r@ == b@.subrange(start as int, i as int),
        decreases end - i,
    {
        r.push(b[i]);
        i = i + 1;
        assert(r@ =~= b@.subrange(start as int, i as int));
    }
    r
}

} // verus!
