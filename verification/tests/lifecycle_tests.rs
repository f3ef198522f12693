use ntlmprobe::error::Error;
use ntlmprobe::lifecycle::{Action, Event, Lifecycle, Phase, Target};

fn utf16le(s: &str) -> Vec<u8> {
    let mut out = Vec::new();
    for u in s.encode_utf16() {
        out.extend_from_slice(&u.to_le_bytes());
    }
    out
}

fn av_list(entries: &[(u16, Vec<u8>)]) -> Vec<u8> {
    let mut out = Vec::new();
    for (id, value) in entries {
        out.extend_from_slice(&id.to_le_bytes());
        out.extend_from_slice(&(value.len() as u16).to_le_bytes());
        out.extend_from_slice(value);
    }
    out.extend_from_slice(&[0, 0, 0, 0]);
    out
}

fn challenge_blob(target_info: &[u8]) -> Vec<u8> {
    let mut b = Vec::new();
    b.extend_from_slice(b"NTLMSSP\0");
    b.extend_from_slice(&2u32.to_le_bytes());
    b.extend_from_slice(&0u16.to_le_bytes());
    b.extend_from_slice(&0u16.to_le_bytes());
    b.extend_from_slice(&56u32.to_le_bytes());
    b.extend_from_slice(&0x00008201u32.to_le_bytes());
    b.extend_from_slice(&[1, 2, 3, 4, 5, 6, 7, 8]);
    b.extend_from_slice(&[0u8; 8]);
    b.extend_from_slice(&(target_info.len() as u16).to_le_bytes());
    b.extend_from_slice(&(target_info.len() as u16).to_le_bytes());
    b.extend_from_slice(&56u32.to_le_bytes());
    b.extend_from_slice(&[0u8; 8]);
    b.extend_from_slice(target_info);
    b
}

fn negotiate_response(dialect: u16) -> Vec<u8> {
    let mut b = vec![0u8; 70];
    b[0] = 0xfe;
    b[1] = 0x53;
    b[2] = 0x4d;
    b[3] = 0x42;
    b[64] = 65;
    b[68..70].copy_from_slice(&dialect.to_le_bytes());
    b
}

fn session_response(status: u32, blob: &[u8]) -> Vec<u8> {
    let mut b = vec![0u8; 72];
    b[0] = 0xfe;
    b[1] = 0x53;
    b[2] = 0x4d;
    b[3] = 0x42;
    b[8..12].copy_from_slice(&status.to_le_bytes());
    b[12..14].copy_from_slice(&1u16.to_le_bytes());
    b[64..66].copy_from_slice(&9u16.to_le_bytes());
    b[68..70].copy_from_slice(&72u16.to_le_bytes());
    b[70..72].copy_from_slice(&(blob.len() as u16).to_le_bytes());
    b.extend_from_slice(blob);
    b
}

/// Splits a sent frame into its 4-byte prefix and its payload, as the
/// wire side would see them.
fn split_frame(frame: &[u8]) -> (Vec<u8>, Vec<u8>) {
    assert!(frame.len() >= 4);
    assert_eq!(frame[0], 0);
    let n = ((frame[1] as usize) << 16) | ((frame[2] as usize) << 8) | frame[3] as usize;
    assert_eq!(frame.len(), 4 + n);
    (frame[..4].to_vec(), frame[4..].to_vec())
}

/// A server that answers a framed request with a framed reply; it
/// rejects the multi-protocol probe with a malformed-looking blurb
/// when `strict` is set.
fn serve(strict: bool, payload: &[u8]) -> Vec<u8> {
    let reply: Vec<u8> = if payload.len() >= 16 && payload[12..14] == 1u16.to_le_bytes() {
        let info = av_list(&[(1, utf16le("HOST1"))]);
        session_response(0xc0000016, &challenge_blob(&info))
    } else {
        let legacy_token = 0x02ffu16.to_le_bytes();
        let probed = payload.windows(2).any(|w| w == legacy_token);
        if strict && probed {
            vec![0xff, 0x53, 0x4d, 0x42, 0x72, 0x00, 0x00]
        } else {
            negotiate_response(0x0302)
        }
    };
    let mut framed = vec![
        0,
        (reply.len() >> 16) as u8,
        (reply.len() >> 8) as u8,
        reply.len() as u8,
    ];
    framed.extend_from_slice(&reply);
    framed
}

/// Drives a whole attempt against the simulated server and returns
/// how many connects happened along with the final action.
fn drive(strict: bool) -> (usize, Action) {
    let mut lc = Lifecycle::new();
    let mut connects = 0;
    let mut action = lc.step(Event::Start);
    let mut incoming: Vec<u8> = Vec::new();
    loop {
        action = match action {
            Action::Connect => {
                connects += 1;
                lc.step(Event::Connected)
            }
            Action::SendThenReadPrefix(frame) => {
                let (_, payload) = split_frame(&frame);
                incoming = serve(strict, &payload);
                lc.step(Event::Prefix(incoming[..4].to_vec()))
            }
            Action::ReadPayload(n) => {
                let payload = incoming[4..4 + n as usize].to_vec();
                lc.step(Event::Payload(payload))
            }
            done => return (connects, done),
        };
    }
}

#[test]
fn happy_path_captures_the_challenge_on_one_connection() {
    let (connects, action) = drive(false);
    assert_eq!(connects, 1);
    match action {
        Action::Succeed(capture) => {
            assert_eq!(capture.pairs.len(), 1);
            assert_eq!(capture.pairs[0].id, 1);
        }
        _ => panic!("expected a capture"),
    }
}

#[test]
fn strict_server_triggers_exactly_one_retry_without_the_probe() {
    let (connects, action) = drive(true);
    assert_eq!(connects, 2);
    assert!(matches!(action, Action::Succeed(_)));
}

#[test]
fn connect_failure_closes_with_connection_error() {
    let mut lc = Lifecycle::new();
    let a = lc.step(Event::Start);
    assert!(matches!(a, Action::Connect));
    let a = lc.step(Event::ConnectFailed);
    assert!(matches!(a, Action::Fail(Error::ConnectionError)));
    assert_eq!(lc.phase, Phase::Closed);
}

#[test]
fn deadline_closes_with_timeout_in_any_phase() {
    let mut lc = Lifecycle::new();
    lc.step(Event::Start);
    lc.step(Event::Connected);
    let a = lc.step(Event::DeadlineExceeded);
    assert!(matches!(a, Action::Fail(Error::Timeout)));
    assert_eq!(lc.phase, Phase::Closed);
}

#[test]
fn io_failure_closes_with_connection_error() {
    let mut lc = Lifecycle::new();
    lc.step(Event::Start);
    lc.step(Event::Connected);
    let a = lc.step(Event::IoFailed);
    assert!(matches!(a, Action::Fail(Error::ConnectionError)));
}

#[test]
fn bad_frame_prefix_closes_with_framing_error() {
    let mut lc = Lifecycle::new();
    lc.step(Event::Start);
    lc.step(Event::Connected);
    let a = lc.step(Event::Prefix(vec![0xff, 0, 0, 4]));
    assert!(matches!(a, Action::Fail(Error::ProtocolFraming)));
}

#[test]
fn zero_timeout_is_replaced_and_flagged() {
    let (t, warned) = Target::new("10.0.0.5".to_string(), None, 0);
    assert!(warned);
    assert_eq!(t.timeout_ms, 3000);
    assert_eq!(t.port, 445);
}

#[test]
fn negative_timeout_is_replaced_and_flagged() {
    let (t, warned) = Target::new("10.0.0.5".to_string(), Some(1445), -2500);
    assert!(warned);
    assert_eq!(t.timeout_ms, 3000);
    assert_eq!(t.port, 1445);
}

#[test]
fn positive_timeout_is_kept() {
    let (t, warned) = Target::new("10.0.0.5".to_string(), None, 1500);
    assert!(!warned);
    assert_eq!(t.timeout_ms, 1500);
}
