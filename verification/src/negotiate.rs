//! The negotiate engine: builds the dialect-negotiation request — with
//! or without the legacy multi-protocol probe token ahead of the
//! modern dialect list — and parses the server's selection. The server
//! is authoritative; the engine never chooses among candidates itself.

use vstd::prelude::*;

use crate::bytes::{le16_of, le16_v, le32_of, le64_of, push_u16_le, push_u32_le, push_u64_le,
    read_u16_le};
use crate::error::Error;
use crate::smb2::{
    check_protocol_id, has_protocol_id, push_smb2_header, push_zeros, resp_command,
    smb2_header_bytes, zero_bytes, CMD_NEGOTIATE,
};

verus! {

/// The oldest modern dialect.
pub const DIALECT_0202: u16 = 0x0202;

/// Dialect 2.1.
pub const DIALECT_0210: u16 = 0x0210;

/// Dialect 3.0.
pub const DIALECT_0300: u16 = 0x0300;

/// Dialect 3.0.2, the newest offered here.
pub const DIALECT_0302: u16 = 0x0302;

/// The wildcard token sent ahead of the modern list when probing
/// servers that expect a multi-protocol negotiation first.
pub const LEGACY_PROBE_DIALECT: u16 = 0x02ff;

/// What the engine reports on success: the dialect the server selected
/// and whether the legacy probe was in the request.
pub struct NegotiateOutcome {
    pub dialect: u16,
    pub used_legacy_probe: bool,
}

/// How many dialect tokens the request carries.
pub open spec fn dialect_count(legacy: bool) -> u16 {
    if legacy {
        5
    } else {
        4
    }
}

/// The negotiate request body: structure size, dialect count, signing
/// enabled, a zero client identifier, then the dialect tokens — the
/// legacy probe first when requested.
pub open spec fn negotiate_body_bytes(legacy: bool) -> Seq<u8> {
    le16_of(36) + le16_of(dialect_count(legacy)) + le16_of(1) + le16_of(0) + le32_of(0)
        + zero_bytes(16) + le64_of(0) + (if legacy {
        le16_of(LEGACY_PROBE_DIALECT)
    } else {
        Seq::empty()
    }) + le16_of(DIALECT_0202) + le16_of(DIALECT_0210) + le16_of(DIALECT_0300) + le16_of(
        DIALECT_0302,
    )
}

/// The whole negotiate request.
pub open spec fn negotiate_request_bytes(legacy: bool) -> Seq<u8> {
    smb2_header_bytes(CMD_NEGOTIATE, 0) + negotiate_body_bytes(legacy)
}

/// Builds the negotiate request, with the legacy probe token included
/// exactly when `use_legacy_probe` is set.
pub fn build_negotiate_request(use_legacy_probe: bool) -> (r: Vec<u8>)
    ensures
        r@ == negotiate_request_bytes(use_legacy_probe),
{
    let mut out: Vec<u8> = Vec::new();
    push_smb2_header(&mut out, CMD_NEGOTIATE, 0);
    push_u16_le(&mut out, 36);
    push_u16_le(&mut out, if use_legacy_probe { 5 } else { 4 });
    push_u16_le(&mut out, 1);
    push_u16_le(&mut out, 0);
    push_u32_le(&mut out, 0);
    push_zeros(&mut out, 16);
    push_u64_le(&mut out, 0);
    if use_legacy_probe {
        push_u16_le(&mut out, LEGACY_PROBE_DIALECT);
    }
    push_u16_le(&mut out, DIALECT_0202);
    push_u16_le(&mut out, DIALECT_0210);
    push_u16_le(&mut out, DIALECT_0300);
    push_u16_le(&mut out, DIALECT_0302);
    assert(out@ =~= negotiate_request_bytes(use_legacy_probe));
    out
}

/// The dialect a response selects.
pub open spec fn selected_dialect(b: Seq<u8>) -> u16
    recommends
        b.len() >= 70,
{
    le16_v(b.subrange(68, 70))
}

/// The dialects this engine accepts as a server's selection.
pub open spec fn is_modern_dialect(d: u16) -> bool {
    d == DIALECT_0202 || d == DIALECT_0210 || d == DIALECT_0300 || d == DIALECT_0302
}

/// Whether a buffer parses as a modern-dialect negotiate response:
/// protocol id, negotiate command, the response body's structure size,
/// and a modern selected dialect.
pub open spec fn negotiate_response_ok(b: Seq<u8>) -> bool {
    &&& b.len() >= 70
    &&& has_protocol_id(b)
    &&& resp_command(b) == CMD_NEGOTIATE
    &&& le16_v(b.subrange(64, 66)) == 65
    &&& is_modern_dialect(selected_dialect(b))
}

/// Parses the server's negotiate response. The selection is taken as
/// authoritative. A reply that does not parse as a modern-dialect
/// response is the recoverable mismatch when the legacy probe was in
/// use — older or strict servers reject the multi-protocol probe with
/// a malformed-looking reply — and a fatal protocol error otherwise.
pub fn parse_negotiate_response(b: &Vec<u8>, used_legacy_probe: bool) -> (r: Result<
    NegotiateOutcome,
    Error,
>)
    ensures
        r is Ok <==> negotiate_response_ok(b@),
        r matches Ok(o) ==> o.dialect == selected_dialect(b@) && o.used_legacy_probe
            == used_legacy_probe,
        !negotiate_response_ok(b@) && used_legacy_probe ==> r == Err::<NegotiateOutcome, Error>(
            Error::NegotiateMismatch,
        ),
        !negotiate_response_ok(b@) && !used_legacy_probe ==> r == Err::<NegotiateOutcome, Error>(
            Error::ProtocolError,
        ),
{
    let failure: Error = if used_legacy_probe {
        Error::NegotiateMismatch
    } else {
        Error::ProtocolError
    };
    let n = b.len();
    if n < 70 {
        return Err(failure);
    }
    if !check_protocol_id(b) {
        return Err(failure);
    }
    if read_u16_le(b, 12) != CMD_NEGOTIATE {
        return Err(failure);
    }
    if read_u16_le(b, 64) != 65 {
        return Err(failure);
    }
    let dialect = read_u16_le(b, 68);
    if !(dialect == DIALECT_0202 || dialect == DIALECT_0210 || dialect == DIALECT_0300 || dialect
        == DIALECT_0302) {
        return Err(failure);
    }
    Ok(NegotiateOutcome { dialect, used_legacy_probe })
}

} // verus!
