//! A minimal verified protocol engine that probes a remote file-sharing
//! endpoint just far enough into its handshake to capture an
//! authentication-challenge message, then decodes the host and domain
//! metadata embedded in the challenge's target-information field.
//!
//! Everything on the wire is plain bytes: the framing, the negotiate and
//! session-setup messages, the challenge header and its attribute-value
//! list are built and parsed here, with contracts. The sockets themselves
//! live outside the library; callers drive the [`lifecycle`] state machine
//! and perform the I/O actions it asks for.

pub mod avpairs;
pub mod bytes;
pub mod challenge;
pub mod framer;
pub mod lifecycle;
pub mod negotiate;
pub mod output;
pub mod session;
pub mod smb2;
pub mod error;

use vstd::prelude::*;

verus! {

} // verus!
