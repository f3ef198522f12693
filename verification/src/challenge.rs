//! The challenge decoder: validates the fixed signature and message
//! type of an authentication challenge blob, reads its fixed-offset
//! header fields, and slices out the target-information bytes.

use vstd::prelude::*;

use crate::bytes::{copy_range, le16_v, le32_v, read_u16_le, read_u32_le};
use crate::error::Error;

verus! {

/// The 8-byte fixed signature every authentication token begins with.
pub open spec fn token_signature() -> Seq<u8> {
    seq![0x4eu8, 0x54u8, 0x4cu8, 0x4du8, 0x53u8, 0x53u8, 0x50u8, 0x00u8]
}

/// Message-type tag of a negotiate token.
pub const MSG_NEGOTIATE: u32 = 1;

/// Message-type tag of a challenge token.
pub const MSG_CHALLENGE: u32 = 2;

/// Message-type tag of an authenticate token (never sent here).
pub const MSG_AUTHENTICATE: u32 = 3;

/// Byte length of the fixed challenge header.
pub const CHALLENGE_HEADER_LEN: usize = 56;

/// The declared length of the target-name field.
pub open spec fn tn_len(b: Seq<u8>) -> u16 {
    le16_v(b.subrange(12, 14))
}

/// The declared offset of the target-name field.
pub open spec fn tn_off(b: Seq<u8>) -> u32 {
    le32_v(b.subrange(16, 20))
}

/// The declared length of the target-information field.
pub open spec fn ti_len(b: Seq<u8>) -> u16 {
    le16_v(b.subrange(40, 42))
}

/// The declared offset of the target-information field.
pub open spec fn ti_off(b: Seq<u8>) -> u32 {
    le32_v(b.subrange(44, 48))
}

/// A blob is a well-formed challenge when it is long enough for the
/// fixed header, begins with the signature, carries the challenge
/// message type, and both declared offset/length pairs stay in bounds.
pub open spec fn challenge_wf(b: Seq<u8>) -> bool {
    &&& b.len() >= CHALLENGE_HEADER_LEN
    &&& b.subrange(0, 8) == token_signature()
    &&& le32_v(b.subrange(8, 12)) == MSG_CHALLENGE
    &&& tn_off(b) + tn_len(b) <= b.len()
    &&& ti_off(b) + ti_len(b) <= b.len()
}

/// The decoded fixed header of a challenge message, with the two
/// variable-length fields sliced out of the blob.
pub struct ChallengeMessage {
    /// Raw bytes of the target-name field.
    pub target_name: Vec<u8>,
    /// The negotiate-flags bitfield.
    pub flags: u32,
    /// The 8-byte server challenge.
    pub server_challenge: Vec<u8>,
    /// The 8 reserved bytes.
    pub reserved: Vec<u8>,
    /// The version bytes.
    pub version: Vec<u8>,
    /// The target-information bytes, decoded further by the pair
    /// extractor.
    pub target_info: Vec<u8>,
}

/// Whether a decoded message holds exactly the fields of a blob.
pub open spec fn challenge_fields(m: ChallengeMessage, b: Seq<u8>) -> bool {
    &&& m.target_name@ == b.subrange(tn_off(b) as int, tn_off(b) + tn_len(b))
    &&& m.flags == le32_v(b.subrange(20, 24))
    &&& m.server_challenge@ == b.subrange(24, 32)
    &&& m.reserved@ == b.subrange(32, 40)
    &&& m.version@ == b.subrange(48, 56)
    &&& m.target_info@ == b.subrange(ti_off(b) as int, ti_off(b) + ti_len(b))
}

/// Decodes a challenge blob. Exactly the well-formed blobs decode; any
/// signature, type or bounds failure is a malformed challenge and no
/// partial message is returned.
pub fn decode_challenge(b: &Vec<u8>) -> (r: Result<ChallengeMessage, Error>)
    ensures
        r is Ok <==> challenge_wf(b@),
        r matches Ok(m) ==> challenge_fields(m, b@),
        !challenge_wf(b@) ==> r == Err::<ChallengeMessage, Error>(Error::MalformedChallenge),
{
    let n = b.len();
    if n < CHALLENGE_HEADER_LEN {
        return Err(Error::MalformedChallenge);
    }
    if b[0] != 0x4e || b[1] != 0x54 || b[2] != 0x4c || b[3] != 0x4d || b[4] != 0x53 || b[5] != 0x53
        || b[6] != 0x50 || b[7] != 0x00 {
        proof {
            if b@.subrange(0, 8) == token_signature() {
                assert(forall|i: int|
                    0 <= i < 8 ==> b@[i] == #[trigger] token_signature()[i]) by {
                    assert(forall|i: int|
                        0 <= i < 8 ==> b@.subrange(0, 8)[i] == #[trigger] token_signature()[i]);
                }
            }
        }
        return Err(Error::MalformedChallenge);
    }
    assert(b@.subrange(0, 8) =~= token_signature());
    let msg_type = read_u32_le(b, 8);
    if msg_type != MSG_CHALLENGE {
        return Err(Error::MalformedChallenge);
    }
    let name_len = read_u16_le(b, 12);
    let name_off = read_u32_le(b, 16);
    let info_len = read_u16_le(b, 40);
    let info_off = read_u32_le(b, 44);
    if name_off as usize > n || n - (name_off as usize) < (name_len as usize) {
        return Err(Error::MalformedChallenge);
    }
    if info_off as usize > n || n - (info_off as usize) < (info_len as usize) {
        return Err(Error::MalformedChallenge);
    }
    let flags = read_u32_le(b, 20);
    let m = ChallengeMessage {
        target_name: copy_range(b, name_off as usize, name_off as usize + name_len as usize),
        flags,
        server_challenge: copy_range(b, 24, 32),
        reserved: copy_range(b, 32, 40),
        version: copy_range(b, 48, 56),
        target_info: copy_range(b, info_off as usize, info_off as usize + info_len as usize),
    };
    Ok(m)
}

} // verus!
