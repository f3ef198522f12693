use ntlmprobe::challenge::decode_challenge;
use ntlmprobe::error::Error;

fn utf16le(s: &str) -> Vec<u8> {
    let mut out = Vec::new();
    for u in s.encode_utf16() {
        out.extend_from_slice(&u.to_le_bytes());
    }
    out
}

fn av_list(entries: &[(u16, Vec<u8>)]) -> Vec<u8> {
    let mut out = Vec::new();
    for (id, value) in entries {
        out.extend_from_slice(&id.to_le_bytes());
        out.extend_from_slice(&(value.len() as u16).to_le_bytes());
        out.extend_from_slice(value);
    }
    out.extend_from_slice(&[0, 0, 0, 0]);
    out
}

/// A challenge blob with the given target name and target-information
/// payload placed after the 56-byte fixed header.
fn challenge_blob(target_name: &[u8], target_info: &[u8]) -> Vec<u8> {
    let mut b = Vec::new();
    b.extend_from_slice(b"NTLMSSP\0");
    b.extend_from_slice(&2u32.to_le_bytes());
    let name_off = 56u32;
    let info_off = 56 + target_name.len() as u32;
    b.extend_from_slice(&(target_name.len() as u16).to_le_bytes());
    b.extend_from_slice(&(target_name.len() as u16).to_le_bytes());
    b.extend_from_slice(&name_off.to_le_bytes());
    b.extend_from_slice(&0x00008201u32.to_le_bytes());
    b.extend_from_slice(&[0x11, 0x22, 0x33, 0x44, 0x55, 0x66, 0x77, 0x88]);
    b.extend_from_slice(&[0u8; 8]);
    b.extend_from_slice(&(target_info.len() as u16).to_le_bytes());
    b.extend_from_slice(&(target_info.len() as u16).to_le_bytes());
    b.extend_from_slice(&info_off.to_le_bytes());
    b.extend_from_slice(&[6, 1, 0, 0, 0, 0, 0, 0x0f]);
    assert_eq!(b.len(), 56);
    b.extend_from_slice(target_name);
    b.extend_from_slice(target_info);
    b
}

#[test]
fn valid_challenge_decodes_every_field() {
    let name = utf16le("HOST1");
    let info = av_list(&[(0x0001, utf16le("HOST1"))]);
    let blob = challenge_blob(&name, &info);
    let m = decode_challenge(&blob).expect("well-formed challenge decodes");
    assert_eq!(m.target_name, name);
    assert_eq!(m.flags, 0x00008201);
    assert_eq!(m.server_challenge, vec![0x11, 0x22, 0x33, 0x44, 0x55, 0x66, 0x77, 0x88]);
    assert_eq!(m.reserved, vec![0u8; 8]);
    assert_eq!(m.version, vec![6, 1, 0, 0, 0, 0, 0, 0x0f]);
    assert_eq!(m.target_info, info);
}

#[test]
fn corrupted_signature_is_malformed() {
    let blob = challenge_blob(&[], &av_list(&[]));
    for i in 0..8 {
        let mut bad = blob.clone();
        bad[i] ^= 0xff;
        assert!(matches!(decode_challenge(&bad), Err(Error::MalformedChallenge)));
    }
}

#[test]
fn wrong_message_type_is_malformed() {
    let mut blob = challenge_blob(&[], &av_list(&[]));
    blob[8] = 1;
    assert!(matches!(decode_challenge(&blob), Err(Error::MalformedChallenge)));
    blob[8] = 3;
    assert!(matches!(decode_challenge(&blob), Err(Error::MalformedChallenge)));
}

#[test]
fn short_blob_is_malformed() {
    let blob = challenge_blob(&[], &av_list(&[]));
    assert!(matches!(decode_challenge(&blob[..55].to_vec()), Err(Error::MalformedChallenge)));
}

#[test]
fn out_of_bounds_target_info_is_malformed() {
    let mut blob = challenge_blob(&[], &av_list(&[]));
    let n = blob.len();
    blob[40] = (n as u16 + 1).to_le_bytes()[0];
    blob[41] = (n as u16 + 1).to_le_bytes()[1];
    assert!(matches!(decode_challenge(&blob), Err(Error::MalformedChallenge)));
}

#[test]
fn out_of_bounds_target_name_is_malformed() {
    let mut blob = challenge_blob(&utf16le("X"), &av_list(&[]));
    blob[16] = 0xff;
    blob[17] = 0xff;
    assert!(matches!(decode_challenge(&blob), Err(Error::MalformedChallenge)));
}
