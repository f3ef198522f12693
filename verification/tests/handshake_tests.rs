use ntlmprobe::error::Error;
use ntlmprobe::negotiate::{build_negotiate_request, parse_negotiate_response};
use ntlmprobe::session::{
    build_session_setup_request, handle_session_setup_response, parse_session_setup_response,
};

fn utf16le(s: &str) -> Vec<u8> {
    let mut out = Vec::new();
    for u in s.encode_utf16() {
        out.extend_from_slice(&u.to_le_bytes());
    }
    out
}

fn av_list(entries: &[(u16, Vec<u8>)]) -> Vec<u8> {
    let mut out = Vec::new();
    for (id, value) in entries {
        out.extend_from_slice(&id.to_le_bytes());
        out.extend_from_slice(&(value.len() as u16).to_le_bytes());
        out.extend_from_slice(value);
    }
    out.extend_from_slice(&[0, 0, 0, 0]);
    out
}

fn challenge_blob(target_info: &[u8]) -> Vec<u8> {
    let mut b = Vec::new();
    b.extend_from_slice(b"NTLMSSP\0");
    b.extend_from_slice(&2u32.to_le_bytes());
    b.extend_from_slice(&0u16.to_le_bytes());
    b.extend_from_slice(&0u16.to_le_bytes());
    b.extend_from_slice(&56u32.to_le_bytes());
    b.extend_from_slice(&0x00008201u32.to_le_bytes());
    b.extend_from_slice(&[1, 2, 3, 4, 5, 6, 7, 8]);
    b.extend_from_slice(&[0u8; 8]);
    b.extend_from_slice(&(target_info.len() as u16).to_le_bytes());
    b.extend_from_slice(&(target_info.len() as u16).to_le_bytes());
    b.extend_from_slice(&56u32.to_le_bytes());
    b.extend_from_slice(&[0u8; 8]);
    b.extend_from_slice(target_info);
    b
}

/// A well-formed negotiate response selecting the given dialect.
fn negotiate_response(dialect: u16) -> Vec<u8> {
    let mut b = vec![0u8; 70];
    b[0] = 0xfe;
    b[1] = 0x53;
    b[2] = 0x4d;
    b[3] = 0x42;
    b[64] = 65;
    b[68..70].copy_from_slice(&dialect.to_le_bytes());
    b
}

/// A session-setup response with the given status carrying the blob.
fn session_response(status: u32, blob: &[u8]) -> Vec<u8> {
    let mut b = vec![0u8; 72];
    b[0] = 0xfe;
    b[1] = 0x53;
    b[2] = 0x4d;
    b[3] = 0x42;
    b[8..12].copy_from_slice(&status.to_le_bytes());
    b[12..14].copy_from_slice(&1u16.to_le_bytes());
    b[64..66].copy_from_slice(&9u16.to_le_bytes());
    b[68..70].copy_from_slice(&72u16.to_le_bytes());
    b[70..72].copy_from_slice(&(blob.len() as u16).to_le_bytes());
    b.extend_from_slice(blob);
    b
}

/// The reply of a strict server that rejects the multi-protocol
/// probe: a short, malformed-looking blurb instead of a negotiate
/// response.
fn strict_server_reply(request: &[u8]) -> Vec<u8> {
    let legacy_token = 0x02ffu16.to_le_bytes();
    let probed = request.windows(2).any(|w| w == legacy_token);
    if probed {
        vec![0xff, 0x53, 0x4d, 0x42, 0x72, 0x00, 0x00]
    } else {
        negotiate_response(0x0302)
    }
}

#[test]
fn legacy_probe_request_carries_the_probe_token_first() {
    let with = build_negotiate_request(true);
    let without = build_negotiate_request(false);
    assert_eq!(with.len(), without.len() + 2);
    // dialect count field, directly after the body's structure size
    assert_eq!(with[66], 5);
    assert_eq!(without[66], 4);
    // the probe token heads the dialect list at the end of the body
    assert_eq!(&with[with.len() - 10..with.len() - 8], &0x02ffu16.to_le_bytes());
    assert_eq!(&without[without.len() - 8..without.len() - 6], &0x0202u16.to_le_bytes());
}

#[test]
fn rejected_probe_mismatches_then_succeeds_without_it() {
    let first_request = build_negotiate_request(true);
    let first_reply = strict_server_reply(&first_request);
    let r = parse_negotiate_response(&first_reply, true);
    assert!(matches!(r, Err(Error::NegotiateMismatch)));

    let second_request = build_negotiate_request(false);
    let second_reply = strict_server_reply(&second_request);
    let outcome = parse_negotiate_response(&second_reply, false).expect("strict retry succeeds");
    assert_eq!(outcome.dialect, 0x0302);
    assert!(!outcome.used_legacy_probe);
}

#[test]
fn malformed_reply_without_probe_is_a_protocol_error() {
    let junk = vec![0xff, 0x53, 0x4d, 0x42, 0x72];
    assert!(matches!(parse_negotiate_response(&junk, false), Err(Error::ProtocolError)));
}

#[test]
fn server_selection_is_authoritative() {
    for d in [0x0202u16, 0x0210, 0x0300, 0x0302] {
        let outcome = parse_negotiate_response(&negotiate_response(d), true).expect("parses");
        assert_eq!(outcome.dialect, d);
        assert!(outcome.used_legacy_probe);
    }
}

#[test]
fn unknown_selected_dialect_does_not_parse() {
    let r = parse_negotiate_response(&negotiate_response(0x02ff), true);
    assert!(matches!(r, Err(Error::NegotiateMismatch)));
}

#[test]
fn session_setup_request_carries_the_negotiate_token() {
    let req = build_session_setup_request();
    assert_eq!(req.len(), 120);
    assert_eq!(&req[88..96], b"NTLMSSP\0");
    assert_eq!(&req[96..100], &1u32.to_le_bytes());
    // the request-target bit of the token flags is set
    let flags = u32::from_le_bytes(req[100..104].try_into().unwrap());
    assert_eq!(flags & 0x4, 0x4);
}

#[test]
fn success_status_is_rejected_not_captured() {
    let blob = challenge_blob(&av_list(&[(1, utf16le("HOST1"))]));
    let resp = session_response(0, &blob);
    assert!(matches!(parse_session_setup_response(&resp), Err(Error::UnexpectedStatus)));
    assert!(matches!(handle_session_setup_response(&resp), Err(Error::UnexpectedStatus)));
}

#[test]
fn more_processing_required_with_blob_is_captured() {
    let info = av_list(&[(1, utf16le("HOST1")), (2, utf16le("WORKGROUP"))]);
    let blob = challenge_blob(&info);
    let resp = session_response(0xc0000016, &blob);
    let got = parse_session_setup_response(&resp).expect("blob extracted");
    assert_eq!(got, blob);
    let capture = handle_session_setup_response(&resp).expect("challenge captured");
    assert_eq!(capture.message.target_info, info);
    assert_eq!(capture.pairs.len(), 2);
    assert_eq!(capture.pairs[0].id, 1);
    assert_eq!(capture.pairs[1].id, 2);
}

#[test]
fn empty_blob_is_an_unexpected_status() {
    let resp = session_response(0xc0000016, &[]);
    assert!(matches!(parse_session_setup_response(&resp), Err(Error::UnexpectedStatus)));
}

#[test]
fn corrupted_challenge_inside_accepted_response_is_malformed() {
    let mut blob = challenge_blob(&av_list(&[]));
    blob[0] ^= 0xff;
    let resp = session_response(0xc0000016, &blob);
    assert!(matches!(handle_session_setup_response(&resp), Err(Error::MalformedChallenge)));
}

#[test]
fn truncated_av_list_inside_challenge_keeps_its_error() {
    let mut info = av_list(&[(1, utf16le("HOST1"))]);
    info.truncate(info.len() - 4);
    let blob = challenge_blob(&info);
    let resp = session_response(0xc0000016, &blob);
    assert!(matches!(handle_session_setup_response(&resp), Err(Error::TruncatedAvList)));
}
