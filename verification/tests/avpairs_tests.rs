use ntlmprobe::avpairs::{decode_av_pairs, encode_av_pairs, AvPair, AvValue};
use ntlmprobe::error::Error;

fn push_u16(out: &mut Vec<u8>, n: u16) {
    out.extend_from_slice(&n.to_le_bytes());
}

fn utf16le(s: &str) -> Vec<u8> {
    let mut out = Vec::new();
    for u in s.encode_utf16() {
        out.extend_from_slice(&u.to_le_bytes());
    }
    out
}

fn pair_bytes(id: u16, value: &[u8]) -> Vec<u8> {
    let mut out = Vec::new();
    push_u16(&mut out, id);
    push_u16(&mut out, value.len() as u16);
    out.extend_from_slice(value);
    out
}

fn end_marker() -> Vec<u8> {
    vec![0, 0, 0, 0]
}

#[test]
fn round_trip_known_and_unknown_tags() {
    let mut bytes = Vec::new();
    bytes.extend(pair_bytes(0x0001, &utf16le("HOST1")));
    bytes.extend(pair_bytes(0x0002, &utf16le("WORKGROUP")));
    bytes.extend(pair_bytes(0x0006, &0x00000002u32.to_le_bytes()));
    bytes.extend(pair_bytes(0x0007, &0x01d9_9cc5_1234_5678u64.to_le_bytes()));
    bytes.extend(pair_bytes(0x1234, &[1, 2, 3]));
    bytes.extend(end_marker());

    let pairs = decode_av_pairs(&bytes).expect("well-formed list decodes");
    assert_eq!(pairs.len(), 5);
    assert_eq!(pairs[0].id, 0x0001);
    assert!(matches!(&pairs[0].value, AvValue::Text(u) if u == &"HOST1".encode_utf16().collect::<Vec<u16>>()));
    assert!(matches!(&pairs[2].value, AvValue::Flags(2)));
    assert!(matches!(&pairs[3].value, AvValue::Timestamp(0x01d9_9cc5_1234_5678)));
    assert!(matches!(&pairs[4].value, AvValue::Bytes(b) if b == &vec![1u8, 2, 3]));

    let encoded = encode_av_pairs(&pairs);
    assert_eq!(encoded, bytes);
}

#[test]
fn round_trip_empty_list() {
    let bytes = end_marker();
    let pairs = decode_av_pairs(&bytes).expect("the bare end marker decodes");
    assert!(pairs.is_empty());
    assert_eq!(encode_av_pairs(&pairs), bytes);
}

#[test]
fn declared_length_past_end_is_truncated() {
    let mut bytes = Vec::new();
    push_u16(&mut bytes, 0x0001);
    push_u16(&mut bytes, 10);
    bytes.extend_from_slice(&[1, 2, 3]);
    assert!(matches!(decode_av_pairs(&bytes), Err(Error::TruncatedAvList)));
}

#[test]
fn missing_end_marker_is_truncated() {
    let bytes = pair_bytes(0x0001, &utf16le("HOST1"));
    assert!(matches!(decode_av_pairs(&bytes), Err(Error::TruncatedAvList)));
}

#[test]
fn empty_input_is_truncated() {
    assert!(matches!(decode_av_pairs(&Vec::new()), Err(Error::TruncatedAvList)));
}

#[test]
fn end_marker_with_nonzero_length_is_malformed() {
    let mut bytes = Vec::new();
    push_u16(&mut bytes, 0x0000);
    push_u16(&mut bytes, 4);
    bytes.extend_from_slice(&[0, 0, 0, 0]);
    assert!(matches!(decode_av_pairs(&bytes), Err(Error::MalformedChallenge)));
}

#[test]
fn trailing_bytes_after_end_marker_are_ignored() {
    let mut bytes = end_marker();
    bytes.extend_from_slice(&[0xde, 0xad]);
    let pairs = decode_av_pairs(&bytes).expect("scan stops at the end marker");
    assert!(pairs.is_empty());
}

#[test]
fn odd_length_text_tag_is_kept_opaque() {
    let mut bytes = Vec::new();
    bytes.extend(pair_bytes(0x0003, &[0x41, 0x00, 0x42]));
    bytes.extend(end_marker());
    let pairs = decode_av_pairs(&bytes).expect("decodes with an opaque value");
    assert!(matches!(&pairs[0].value, AvValue::Bytes(b) if b == &vec![0x41u8, 0x00, 0x42]));
    assert_eq!(encode_av_pairs(&pairs), bytes);
}

#[test]
fn wrong_sized_flags_and_timestamp_are_kept_opaque() {
    let mut bytes = Vec::new();
    bytes.extend(pair_bytes(0x0006, &[1, 2]));
    bytes.extend(pair_bytes(0x0007, &[1, 2, 3, 4]));
    bytes.extend(end_marker());
    let pairs = decode_av_pairs(&bytes).expect("decodes with opaque values");
    assert!(matches!(&pairs[0].value, AvValue::Bytes(_)));
    assert!(matches!(&pairs[1].value, AvValue::Bytes(_)));
    assert_eq!(encode_av_pairs(&pairs), bytes);
}

#[test]
fn encode_then_decode_gives_back_the_pairs() {
    let pairs = vec![
        AvPair { id: 0x0004, value: AvValue::Text("corp.example".encode_utf16().collect()) },
        AvPair { id: 0x0008, value: AvValue::Bytes(vec![9, 9, 9, 9]) },
    ];
    let bytes = encode_av_pairs(&pairs);
    let back = decode_av_pairs(&bytes).expect("own encoding decodes");
    assert_eq!(back.len(), 2);
    assert_eq!(back[0].id, 0x0004);
    assert!(matches!(&back[0].value, AvValue::Text(u) if u == &"corp.example".encode_utf16().collect::<Vec<u16>>()));
    assert!(matches!(&back[1].value, AvValue::Bytes(b) if b == &vec![9u8, 9, 9, 9]));
}
