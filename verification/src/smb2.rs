//! Shared pieces of the modern-dialect message layer: the fixed
//! 64-byte header every request and response carries, and the checks
//! a response header must pass.

use vstd::prelude::*;

use crate::bytes::{le16_of, le16_v, le32_of, le32_v, le64_of};

verus! {

/// Command tag of a negotiate message.
pub const CMD_NEGOTIATE: u16 = 0;

/// Command tag of a session-setup message.
pub const CMD_SESSION_SETUP: u16 = 1;

/// The 4-byte protocol identifier of a modern-dialect message.
pub open spec fn smb2_protocol_id() -> Seq<u8> {
    seq![0xfeu8, 0x53u8, 0x4du8, 0x42u8]
}

/// `n` zero bytes.
pub open spec fn zero_bytes(n: int) -> Seq<u8> {
    Seq::new(n as nat, |i| 0u8)
}

/// The 64-byte request header: protocol id, structure size, command,
/// one requested credit, a message id, and zeroed reserved, tree,
/// session and signature fields.
pub open spec fn smb2_header_bytes(cmd: u16, msg_id: u64) -> Seq<u8> {
    smb2_protocol_id() + le16_of(64) + le16_of(0) + le32_of(0) + le16_of(cmd) + le16_of(1)
        + le32_of(0) + le32_of(0) + le64_of(msg_id) + zero_bytes(32)
}

/// The command field of a response header.
pub open spec fn resp_command(b: Seq<u8>) -> u16
    recommends
        b.len() >= 16,
{
    le16_v(b.subrange(12, 14))
}

/// The status field of a response header.
pub open spec fn resp_status(b: Seq<u8>) -> u32
    recommends
        b.len() >= 16,
{
    le32_v(b.subrange(8, 12))
}

/// Whether a buffer begins with the protocol identifier.
pub open spec fn has_protocol_id(b: Seq<u8>) -> bool {
    b.len() >= 4 && b.subrange(0, 4) == smb2_protocol_id()
}

/// Appends `n` zero bytes.
pub fn push_zeros(out: &mut Vec<u8>, n: usize)
    ensures
        final(out)@ == old(out)@ + zero_bytes(n as int),
{
    let mut i: usize = 0;
    while i < n
        invariant
            i <= n,
            out@ == old(out)@ + zero_bytes(i as int),
        decreases n - i,
    {
        out.push(0u8);
        i = i + 1;
        assert(out@ =~= old(out)@ + zero_bytes(i as int));
    }
}

/// Appends the 64-byte request header.
pub fn push_smb2_header(out: &mut Vec<u8>, cmd: u16, msg_id: u64)
    ensures
        final(out)@ == old(out)@ + smb2_header_bytes(cmd, msg_id),
{
    out.push(0xfeu8);
    out.push(0x53u8);
    out.push(0x4du8);
    out.push(0x42u8);
    crate::bytes::push_u16_le(out, 64);
    crate::bytes::push_u16_le(out, 0);
    crate::bytes::push_u32_le(out, 0);
    crate::bytes::push_u16_le(out, cmd);
    crate::bytes::push_u16_le(out, 1);
    crate::bytes::push_u32_le(out, 0);
    crate::bytes::push_u32_le(out, 0);
    crate::bytes::push_u64_le(out, msg_id);
    push_zeros(out, 32);
    assert(out@ =~= old(out)@ + smb2_header_bytes(cmd, msg_id));
}

/// Tests for the protocol identifier at the head of a response.
pub fn check_protocol_id(b: &Vec<u8>) -> (r: bool)
    ensures
        r == has_protocol_id(b@),
{
    let n = b.len();
    if n < 4 {
        return false;
    }
    if b[0] == 0xfe && b[1] == 0x53 && b[2] == 0x4d && b[3] == 0x42 {
        assert(b@.subrange(0, 4) =~= smb2_protocol_id());
        true
    } else {
        proof {
            if b@.subrange(0, 4) == smb2_protocol_id() {
                assert(forall|i: int|
                    0 <= i < 4 ==> b@.subrange(0, 4)[i] == #[trigger] smb2_protocol_id()[i]);
                assert(b@[0] == 0xfe && b@[1] == 0x53 && b@[2] == 0x4d && b@[3] == 0x42);
            }
        }
        false
    }
}

} // verus!
