//! The error taxonomy of the probe. Every class except
//! [`Error::NegotiateMismatch`] is terminal for the current target;
//! a mismatch triggers the one-shot retry without the legacy probe.

use vstd::prelude::*;

verus! {

/// One failure class of a single target attempt.
#[derive(Clone, Copy, Debug, PartialEq, Eq, Structural)]
pub enum Error {
    /// Name resolution, connect, read or write failed.
    ConnectionError,
    /// The per-target deadline elapsed.
    Timeout,
    /// The 4-byte length prefix of an incoming frame was invalid.
    ProtocolFraming,
    /// The negotiate reply did not parse as a modern-dialect response
    /// while the legacy probe was in use; recoverable exactly once.
    NegotiateMismatch,
    /// The negotiate reply was otherwise unparsable.
    ProtocolError,
    /// The session-setup reply was not "more processing required"
    /// carrying a non-empty security blob.
    UnexpectedStatus,
    /// The challenge blob failed signature, type or bounds validation.
    MalformedChallenge,
    /// The attribute-value list declared more data than was present.
    TruncatedAvList,
}

impl Error {
    /// A short stable label for reporting; the library defines no
    /// `Display`, callers print this.
    pub fn label(&self) -> (r: &'static str)
        ensures
            r@ == self.label_spec(),
    {
        match self {
            Error::ConnectionError => "connection error",
            Error::Timeout => "timeout",
            Error::ProtocolFraming => "invalid frame prefix",
            Error::NegotiateMismatch => "negotiate mismatch",
            Error::ProtocolError => "protocol error",
            Error::UnexpectedStatus => "unexpected session-setup status",
            Error::MalformedChallenge => "malformed challenge",
            Error::TruncatedAvList => "truncated attribute-value list",
        }
    }

    pub open spec fn label_spec(&self) -> Seq<char> {
        match self {
            Error::ConnectionError => "connection error"@,
            Error::Timeout => "timeout"@,
            Error::ProtocolFraming => "invalid frame prefix"@,
            Error::NegotiateMismatch => "negotiate mismatch"@,
            Error::ProtocolError => "protocol error"@,
            Error::UnexpectedStatus => "unexpected session-setup status"@,
            Error::MalformedChallenge => "malformed challenge"@,
            Error::TruncatedAvList => "truncated attribute-value list"@,
        }
    }
}

} // verus!
