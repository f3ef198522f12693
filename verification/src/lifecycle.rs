//! The connection lifecycle manager: one state machine per target
//! attempt. It decides every transition — including the one-shot
//! retry without the legacy probe when negotiation mismatches — and
//! hands the caller the wire actions to perform. The caller owns the
//! socket, performs each action, reports the outcome as the next
//! event, and must release the socket on every exit path.

use vstd::prelude::*;

use crate::error::Error;
use crate::framer::{frame_of, frame_payload, parse_frame_prefix, prefix_ok, prefix_len,
    MAX_FRAME_LEN};
use crate::negotiate::{
    build_negotiate_request, negotiate_request_bytes, negotiate_response_ok,
    parse_negotiate_response,
};
use crate::session::{
    build_session_setup_request, handle_session_setup_response, session_setup_request_bytes,
    ChallengeCapture,
};

verus! {

/// Where an attempt stands.
#[derive(Clone, Copy, Debug, PartialEq, Eq, Structural)]
pub enum Phase {
    /// Nothing happened yet.
    Idle,
    /// A socket is being opened.
    Connecting,
    /// The negotiate request is out; the reply's 4-byte prefix is due.
    AwaitNegotiatePrefix,
    /// The negotiate reply's payload is due.
    AwaitNegotiatePayload,
    /// The session-setup request is out; the prefix is due.
    AwaitSessionPrefix,
    /// The session-setup reply's payload is due.
    AwaitSessionPayload,
    /// Closed, successfully or not; no further wire operation follows.
    Closed,
}

/// What the caller reports back to the machine.
pub enum Event {
    /// Begin the attempt.
    Start,
    /// The socket is open.
    Connected,
    /// The socket could not be opened.
    ConnectFailed,
    /// Exactly the 4 prefix bytes that were due.
    Prefix(Vec<u8>),
    /// Exactly the payload bytes that were due.
    Payload(Vec<u8>),
    /// A read or write failed, or the peer closed early.
    IoFailed,
    /// The single per-attempt deadline elapsed; no further wire
    /// operation may be attempted.
    DeadlineExceeded,
}

/// What the caller must do next.
pub enum Action {
    /// Open a fresh socket to the target (closing any previous one).
    Connect,
    /// Write these bytes, then read exactly 4 prefix bytes.
    SendThenReadPrefix(Vec<u8>),
    /// Read exactly this many payload bytes.
    ReadPayload(u32),
    /// Close the socket; the attempt succeeded with this capture.
    Succeed(ChallengeCapture),
    /// Close the socket; the attempt failed with this error.
    Fail(Error),
}

/// One target attempt's state.
pub struct Lifecycle {
    pub phase: Phase,
    /// Whether the next negotiate request carries the legacy probe.
    pub use_legacy_probe: bool,
    /// Whether the one-shot mismatch retry was already spent.
    pub retried: bool,
}

impl Lifecycle {
    /// A fresh attempt: the first negotiation uses the legacy probe.
    pub fn new() -> (r: Lifecycle)
        ensures
            r.phase is Idle && r.use_legacy_probe && !r.retried,
    {
        Lifecycle { phase: Phase::Idle, use_legacy_probe: true, retried: false }
    }

    /// Feeds one event in and returns the next action. The contract
    /// pins every transition: connection and negotiation failures
    /// close the attempt with their own error class, a negotiate
    /// mismatch with the probe in use re-connects exactly once without
    /// it, and only a captured challenge closes the attempt
    /// successfully.
    pub fn step(&mut self, event: Event) -> (action: Action)
        ensures
            event is DeadlineExceeded ==> final(self).phase is Closed && (action matches
                Action::Fail(e) && e == Error::Timeout),
            event is IoFailed ==> final(self).phase is Closed && (action matches Action::Fail(e)
                && e == Error::ConnectionError),
            old(self).phase is Idle && event is Start ==> final(self).phase is Connecting
                && final(self).use_legacy_probe == old(self).use_legacy_probe
                && final(self).retried == old(self).retried && action is Connect,
            old(self).phase is Connecting && event is Connected ==> final(self).phase
                is AwaitNegotiatePrefix && (action matches Action::SendThenReadPrefix(f)
                && f@ == frame_of(negotiate_request_bytes(old(self).use_legacy_probe))),
            old(self).phase is Connecting && event is ConnectFailed ==> final(self).phase
                is Closed && (action matches Action::Fail(e) && e == Error::ConnectionError),
            event matches Event::Prefix(p) ==> old(self).phase is AwaitNegotiatePrefix ==> ({
                &&& p@.len() == 4 && prefix_ok(p@) ==> final(self).phase is AwaitNegotiatePayload
                    && (action matches Action::ReadPayload(n) && n == prefix_len(p@))
                &&& !(p@.len() == 4 && prefix_ok(p@)) ==> final(self).phase is Closed && (action
                    matches Action::Fail(e) && e == Error::ProtocolFraming)
            }),
            event matches Event::Payload(b) ==> old(self).phase is AwaitNegotiatePayload ==> ({
                &&& negotiate_response_ok(b@) ==> final(self).phase is AwaitSessionPrefix
                    && (action matches Action::SendThenReadPrefix(f) && f@ == frame_of(
                    session_setup_request_bytes(),
                ))
                &&& !negotiate_response_ok(b@) && old(self).use_legacy_probe && !old(self).retried
                    ==> final(self).phase is Connecting && !final(self).use_legacy_probe
                    && final(self).retried && action is Connect
                &&& !negotiate_response_ok(b@) && old(self).use_legacy_probe && old(self).retried
                    ==> final(self).phase is Closed && (action matches Action::Fail(e) && e
                    == Error::NegotiateMismatch)
                &&& !negotiate_response_ok(b@) && !old(self).use_legacy_probe ==> final(self).phase
                    is Closed && (action matches Action::Fail(e) && e == Error::ProtocolError)
            }),
            event matches Event::Prefix(p) ==> old(self).phase is AwaitSessionPrefix ==> ({
                &&& p@.len() == 4 && prefix_ok(p@) ==> final(self).phase is AwaitSessionPayload
                    && (action matches Action::ReadPayload(n) && n == prefix_len(p@))
                &&& !(p@.len() == 4 && prefix_ok(p@)) ==> final(self).phase is Closed && (action
                    matches Action::Fail(e) && e == Error::ProtocolFraming)
            }),
            event matches Event::Payload(b) ==> old(self).phase is AwaitSessionPayload ==> ({
                &&& crate::session::session_response_accepted(b@) && crate::challenge::challenge_wf(
                    crate::session::session_blob(b@),
                ) && crate::avpairs::av_parse(
                    crate::session::challenge_ti(crate::session::session_blob(b@)),
                ) is Pairs ==> final(self).phase is Closed && (action matches Action::Succeed(c)
                    && crate::challenge::challenge_fields(
                    c.message,
                    crate::session::session_blob(b@),
                ) && crate::avpairs::pairs_vw(c.pairs@) == crate::avpairs::av_parse(
                    crate::session::challenge_ti(crate::session::session_blob(b@)),
                )->Pairs_0)
                &&& !crate::session::session_response_accepted(b@) ==> final(self).phase is Closed
                    && (action matches Action::Fail(e) && e == Error::UnexpectedStatus)
                &&& crate::session::session_response_accepted(b@)
                    && !crate::challenge::challenge_wf(crate::session::session_blob(b@)) ==> final(self).phase is Closed && (action matches Action::Fail(e) && e
                    == Error::MalformedChallenge)
                &&& crate::session::session_response_accepted(b@)
                    && crate::challenge::challenge_wf(crate::session::session_blob(b@))
                    && crate::avpairs::av_parse(
                    crate::session::challenge_ti(crate::session::session_blob(b@)),
                ) is Truncated ==> final(self).phase is Closed && (action matches Action::Fail(e)
                    && e == Error::TruncatedAvList)
            }),
    {
        match event {
            Event::DeadlineExceeded => {
                self.phase = Phase::Closed;
                Action::Fail(Error::Timeout)
            },
            Event::IoFailed => {
                self.phase = Phase::Closed;
                Action::Fail(Error::ConnectionError)
            },
            Event::Start => {
                if matches!(self.phase, Phase::Idle) {
                    self.phase = Phase::Connecting;
                    Action::Connect
                } else {
                    self.phase = Phase::Closed;
                    Action::Fail(Error::ProtocolError)
                }
            },
            Event::Connected => {
                if matches!(self.phase, Phase::Connecting) {
                    self.phase = Phase::AwaitNegotiatePrefix;
                    let req = build_negotiate_request(self.use_legacy_probe);
                    assert(req@.len() <= MAX_FRAME_LEN);
                    Action::SendThenReadPrefix(frame_payload(&req))
                } else {
                    self.phase = Phase::Closed;
                    Action::Fail(Error::ProtocolError)
                }
            },
            Event::ConnectFailed => {
                self.phase = Phase::Closed;
                Action::Fail(Error::ConnectionError)
            },
            Event::Prefix(p) => {
                if !(matches!(self.phase, Phase::AwaitNegotiatePrefix) || matches!(
                    self.phase,
                    Phase::AwaitSessionPrefix,
                )) {
                    self.phase = Phase::Closed;
                    return Action::Fail(Error::ProtocolError);
                }
                if p.len() != 4 {
                    self.phase = Phase::Closed;
                    return Action::Fail(Error::ProtocolFraming);
                }
                match parse_frame_prefix(&p) {
                    Ok(n) => {
                        if matches!(self.phase, Phase::AwaitNegotiatePrefix) {
                            self.phase = Phase::AwaitNegotiatePayload;
                        } else {
                            self.phase = Phase::AwaitSessionPayload;
                        }
                        Action::ReadPayload(n)
                    },
                    Err(e) => {
                        self.phase = Phase::Closed;
                        Action::Fail(e)
                    },
                }
            },
            Event::Payload(b) => {
                if matches!(self.phase, Phase::AwaitNegotiatePayload) {
                    match parse_negotiate_response(&b, self.use_legacy_probe) {
                        Ok(_) => {
                            self.phase = Phase::AwaitSessionPrefix;
                            let req = build_session_setup_request();
                            assert(req@.len() <= MAX_FRAME_LEN);
                            Action::SendThenReadPrefix(frame_payload(&req))
                        },
                        Err(e) => {
                            if matches!(e, Error::NegotiateMismatch) && !self.retried {
                                self.use_legacy_probe = false;
                                self.retried = true;
                                self.phase = Phase::Connecting;
                                Action::Connect
                            } else {
                                self.phase = Phase::Closed;
                                Action::Fail(e)
                            }
                        },
                    }
                } else if matches!(self.phase, Phase::AwaitSessionPayload) {
                    self.phase = Phase::Closed;
                    match handle_session_setup_response(&b) {
                        Ok(c) => Action::Succeed(c),
                        Err(e) => Action::Fail(e),
                    }
                } else {
                    self.phase = Phase::Closed;
                    Action::Fail(Error::ProtocolError)
                }
            },
        }
    }
}


/// Default well-known service port.
pub const DEFAULT_PORT: u16 = 445;

/// Default per-target timeout in milliseconds.
pub const DEFAULT_TIMEOUT_MS: u64 = 3000;

/// One target of a probe attempt: host, port and the single deadline
/// covering the whole attempt. Immutable once built.
pub struct Target {
    pub host: String,
    pub port: u16,
    pub timeout_ms: u64,
}

impl Target {
    /// Builds a target. A missing port falls back to the well-known
    /// one. A requested timeout of zero or less is rejected and
    /// replaced by the default; the second component reports whether
    /// that happened, so the caller can emit its warning.
    pub fn new(host: String, port: Option<u16>, requested_timeout_ms: i64) -> (r: (Target, bool))
        ensures
            r.0.host == host,
            port matches Some(p) ==> r.0.port == p,
            port is None ==> r.0.port == DEFAULT_PORT,
            requested_timeout_ms <= 0 ==> r.0.timeout_ms == DEFAULT_TIMEOUT_MS && r.1,
            requested_timeout_ms > 0 ==> r.0.timeout_ms == requested_timeout_ms && !r.1,
    {
        let p = match port {
            Some(p) => p,
            None => DEFAULT_PORT,
        };
        if requested_timeout_ms <= 0 {
            (Target { host, port: p, timeout_ms: DEFAULT_TIMEOUT_MS }, true)
        } else {
            (Target { host, port: p, timeout_ms: requested_timeout_ms as u64 }, false)
        }
    }
}

} // verus!
