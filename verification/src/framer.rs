//! The wire framer: every message travels behind a 4-byte big-endian
//! length prefix whose top byte is reserved and must be zero.

use vstd::prelude::*;

use crate::error::Error;

verus! {

/// Upper bound a declared frame length must stay within.
pub const MAX_FRAME_LEN: u32 = 0x100000;

/// The 4-byte prefix carried in front of a payload of length `n`.
pub open spec fn prefix_of(n: u32) -> Seq<u8>
    recommends
        n <= 0xFFFFFF,
{
    seq![0u8, (n / 0x10000) as u8, ((n / 0x100) % 0x100) as u8, (n % 0x100) as u8]
}

/// The framed form of a payload.
pub open spec fn frame_of(payload: Seq<u8>) -> Seq<u8> {
    prefix_of(payload.len() as u32) + payload
}

/// Whether a received 4-byte prefix is acceptable: reserved byte zero
/// and a declared length within the sane upper bound.
pub open spec fn prefix_ok(p: Seq<u8>) -> bool
    recommends
        p.len() == 4,
{
    p[0] == 0 && prefix_len(p) <= MAX_FRAME_LEN
}

/// The payload length a 4-byte prefix declares (ignoring its top byte).
pub open spec fn prefix_len(p: Seq<u8>) -> u32
    recommends
        p.len() == 4,
{
    (p[1] * 0x10000 + p[2] * 0x100 + p[3]) as u32
}

/// Wraps a payload in its length prefix for sending. The bound is a
/// machine limit of the 3-byte length field; every message this
/// library builds is far below it.
pub fn frame_payload(payload: &Vec<u8>) -> (r: Vec<u8>)
    requires
        payload@.len() <= MAX_FRAME_LEN,
    ensures
        r@ == frame_of(payload@),
{
    let n = payload.len() as u32;
    let mut r: Vec<u8> = Vec::new();
    r.push(0u8);
    r.push((n / 0x10000) as u8);
    r.push(((n / 0x100) % 0x100) as u8);
    r.push((n % 0x100) as u8);
    let mut i: usize = 0;
    let m = payload.len();
    while i < m
        invariant
            i <= m == payload@.len(),
            r@ == prefix_of(payload@.len() as u32) + payload@.take(i as int),
        decreases m - i,
    {
        r.push(payload[i]);
        i = i + 1;
        assert(r@ =~= prefix_of(payload@.len() as u32) + payload@.take(i as int));
    }
    assert(r@ =~= frame_of(payload@));
    r
}

/// Validates a received 4-byte prefix and returns the payload length
/// it declares; a nonzero reserved byte or an oversize length is a
/// framing error.
pub fn parse_frame_prefix(p: &Vec<u8>) -> (r: Result<u32, Error>)
    requires
        p@.len() == 4,
    ensures
        r is Ok <==> prefix_ok(p@),
        r matches Ok(n) ==> n == prefix_len(p@),
        !prefix_ok(p@) ==> r == Err::<u32, Error>(Error::ProtocolFraming),
{
    if p[0] != 0 {
        return Err(Error::ProtocolFraming);
    }
    let n: u32 = (p[1] as u32) * 0x10000 + (p[2] as u32) * 0x100 + p[3] as u32;
    if n > MAX_FRAME_LEN {
        return Err(Error::ProtocolFraming);
    }
    Ok(n)
}

/// A sent frame's own prefix always parses back to the payload length.
pub proof fn lemma_frame_prefix_round_trip(payload: Seq<u8>)
    requires
        payload.len() <= MAX_FRAME_LEN,
    ensures
        frame_of(payload).subrange(0, 4) == prefix_of(payload.len() as u32),
        prefix_len(prefix_of(payload.len() as u32)) == payload.len(),
        prefix_ok(prefix_of(payload.len() as u32)),
{
    let n = payload.len() as u32;
    assert(frame_of(payload).subrange(0, 4) =~= prefix_of(n));
    let a: u32 = n / 0x10000;
    let b: u32 = (n / 0x100) % 0x100;
    let c: u32 = n % 0x100;
    assert(a < 0x100 && b < 0x100 && c < 0x100 && a * 0x10000 + b * 0x100 + c == n)
        by (bit_vector)
        requires
            n <= 0x100000u32,
            a == n / 0x10000,
            b == (n / 0x100) % 0x100,
            c == n % 0x100,
    ;
    assert(prefix_of(n)[1] == a as u8 && prefix_of(n)[2] == b as u8 && prefix_of(n)[3]
        == c as u8);
}

} // verus!
