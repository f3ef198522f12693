//! The session setup driver's message side: builds the session-setup
//! request carrying an unwrapped authentication-negotiate token that
//! asks the peer for target information, and handles the response.
//! Success is exactly the "more processing required" status with a
//! non-empty security blob; the challenge in that blob is decoded and
//! the handshake is then deliberately abandoned — no authenticate
//! message exists anywhere in this library.

use vstd::prelude::*;

use crate::avpairs::{av_parse, decode_av_pairs, pairs_vw, AvPair};
use crate::bytes::{copy_range, le16_of, le16_v, le32_of, le64_of, push_u16_le, push_u32_le,
    push_u64_le, read_u16_le, read_u32_le};
use crate::challenge::{
    challenge_fields, challenge_wf, decode_challenge, ti_len, ti_off, token_signature,
    ChallengeMessage, MSG_NEGOTIATE,
};
use crate::error::Error;
use crate::smb2::{
    check_protocol_id, has_protocol_id, push_smb2_header, resp_command, resp_status,
    smb2_header_bytes, zero_bytes, CMD_SESSION_SETUP,
};

verus! {

/// Status a session-setup response must carry: the server wants the
/// next authentication leg — which is the designed terminal success
/// here.
pub const STATUS_MORE_PROCESSING_REQUIRED: u32 = 0xc0000016;

/// Flags of the negotiate token: unicode, request target information,
/// and the authentication scheme itself.
pub const NEGOTIATE_TOKEN_FLAGS: u32 = 0x00000205;

/// Byte length of the negotiate token.
pub const NEGOTIATE_TOKEN_LEN: u16 = 32;

/// Offset of the security blob inside the request message.
pub const SECURITY_BUFFER_OFFSET: u16 = 88;

/// The authentication-negotiate token: signature, negotiate type,
/// flags, and empty domain and workstation fields.
pub open spec fn negotiate_token_bytes() -> Seq<u8> {
    token_signature() + le32_of(MSG_NEGOTIATE) + le32_of(NEGOTIATE_TOKEN_FLAGS) + zero_bytes(16)
}

/// The whole session-setup request: header, fixed body, and the token
/// as its security blob, unwrapped.
pub open spec fn session_setup_request_bytes() -> Seq<u8> {
    smb2_header_bytes(CMD_SESSION_SETUP, 1) + le16_of(25) + seq![0u8, 1u8] + le32_of(0) + le32_of(0)
        + le16_of(SECURITY_BUFFER_OFFSET) + le16_of(NEGOTIATE_TOKEN_LEN) + le64_of(0)
        + negotiate_token_bytes()
}

/// Builds the session-setup request.
pub fn build_session_setup_request() -> (r: Vec<u8>)
    ensures
        r@ == session_setup_request_bytes(),
{
    let mut out: Vec<u8> = Vec::new();
    push_smb2_header(&mut out, CMD_SESSION_SETUP, 1);
    push_u16_le(&mut out, 25);
    out.push(0u8);
    out.push(1u8);
    push_u32_le(&mut out, 0);
    push_u32_le(&mut out, 0);
    push_u16_le(&mut out, SECURITY_BUFFER_OFFSET);
    push_u16_le(&mut out, NEGOTIATE_TOKEN_LEN);
    push_u64_le(&mut out, 0);
    out.push(0x4eu8);
    out.push(0x54u8);
    out.push(0x4cu8);
    out.push(0x4du8);
    out.push(0x53u8);
    out.push(0x53u8);
    out.push(0x50u8);
    out.push(0x00u8);
    push_u32_le(&mut out, MSG_NEGOTIATE);
    push_u32_le(&mut out, NEGOTIATE_TOKEN_FLAGS);
    crate::smb2::push_zeros(&mut out, 16);
    assert(out@ =~= session_setup_request_bytes());
    out
}

/// The declared offset of the response's security blob.
pub open spec fn blob_off(b: Seq<u8>) -> u16 {
    le16_v(b.subrange(68, 70))
}

/// The declared length of the response's security blob.
pub open spec fn blob_len(b: Seq<u8>) -> u16 {
    le16_v(b.subrange(70, 72))
}

/// Whether a session-setup response is the one accepted outcome:
/// structurally a session-setup response whose status is exactly
/// "more processing required" and which carries a non-empty, in-bounds
/// security blob. Any other status — outright success included — is
/// not accepted.
pub open spec fn session_response_accepted(b: Seq<u8>) -> bool {
    &&& b.len() >= 72
    &&& has_protocol_id(b)
    &&& resp_command(b) == CMD_SESSION_SETUP
    &&& resp_status(b) == STATUS_MORE_PROCESSING_REQUIRED
    &&& le16_v(b.subrange(64, 66)) == 9
    &&& blob_len(b) > 0
    &&& blob_off(b) + blob_len(b) <= b.len()
}

/// The security blob an accepted response carries.
pub open spec fn session_blob(b: Seq<u8>) -> Seq<u8>
    recommends
        session_response_accepted(b),
{
    b.subrange(blob_off(b) as int, blob_off(b) + blob_len(b))
}

/// Extracts the security blob of a session-setup response; every
/// response that is not accepted — wrong status, no blob, or not a
/// session-setup response at all — is an unexpected status and is
/// never partially parsed.
pub fn parse_session_setup_response(b: &Vec<u8>) -> (r: Result<Vec<u8>, Error>)
    ensures
        r is Ok <==> session_response_accepted(b@),
        r matches Ok(v) ==> v@ == session_blob(b@),
        !session_response_accepted(b@) ==> r == Err::<Vec<u8>, Error>(Error::UnexpectedStatus),
{
    let n = b.len();
    if n < 72 {
        return Err(Error::UnexpectedStatus);
    }
    if !check_protocol_id(b) {
        return Err(Error::UnexpectedStatus);
    }
    if read_u16_le(b, 12) != CMD_SESSION_SETUP {
        return Err(Error::UnexpectedStatus);
    }
    if read_u32_le(b, 8) != STATUS_MORE_PROCESSING_REQUIRED {
        return Err(Error::UnexpectedStatus);
    }
    if read_u16_le(b, 64) != 9 {
        return Err(Error::UnexpectedStatus);
    }
    let off = read_u16_le(b, 68);
    let len = read_u16_le(b, 70);
    if len == 0 {
        return Err(Error::UnexpectedStatus);
    }
    if off as usize > n || n - (off as usize) < (len as usize) {
        return Err(Error::UnexpectedStatus);
    }
    Ok(copy_range(b, off as usize, off as usize + len as usize))
}

/// What the driver hands back once a challenge was captured: the
/// decoded message and its target-information pairs, as ordinary
/// return values.
pub struct ChallengeCapture {
    pub message: ChallengeMessage,
    pub pairs: Vec<AvPair>,
}

/// The target-information bytes of a challenge blob.
pub open spec fn challenge_ti(blob: Seq<u8>) -> Seq<u8>
    recommends
        challenge_wf(blob),
{
    blob.subrange(ti_off(blob) as int, ti_off(blob) + ti_len(blob))
}

/// Drives the response through the challenge decoder and the pair
/// extractor. Exactly the accepted responses whose blob is a
/// well-formed challenge with a decodable attribute-value list yield a
/// capture; each failure keeps its own error class.
pub fn handle_session_setup_response(b: &Vec<u8>) -> (r: Result<ChallengeCapture, Error>)
    ensures
        r is Ok <==> session_response_accepted(b@) && challenge_wf(session_blob(b@)) && av_parse(
            challenge_ti(session_blob(b@)),
        ) is Pairs,
        r matches Ok(c) ==> challenge_fields(c.message, session_blob(b@)) && pairs_vw(c.pairs@)
            == av_parse(challenge_ti(session_blob(b@)))->Pairs_0,
        !session_response_accepted(b@) ==> r == Err::<ChallengeCapture, Error>(
            Error::UnexpectedStatus,
        ),
        session_response_accepted(b@) && !challenge_wf(session_blob(b@)) ==> r == Err::<
            ChallengeCapture,
            Error,
        >(Error::MalformedChallenge),
        session_response_accepted(b@) && challenge_wf(session_blob(b@)) ==> {
            &&& av_parse(challenge_ti(session_blob(b@))) is BadEnd ==> r == Err::<
                ChallengeCapture,
                Error,
            >(Error::MalformedChallenge)
            &&& av_parse(challenge_ti(session_blob(b@))) is Truncated ==> r == Err::<
                ChallengeCapture,
                Error,
            >(Error::TruncatedAvList)
        },
{
    let blob = match parse_session_setup_response(b) {
        Ok(v) => v,
        Err(e) => {
            return Err(e);
        },
    };
    let message = match decode_challenge(&blob) {
        Ok(m) => m,
        Err(e) => {
            return Err(e);
        },
    };
    let pairs = match decode_av_pairs(&message.target_info) {
        Ok(p) => p,
        Err(e) => {
            return Err(e);
        },
    };
    Ok(ChallengeCapture { message, pairs })
}

} // verus!
