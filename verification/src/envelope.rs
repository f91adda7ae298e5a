//! Message envelopes: a decoded wire message as the router sees it.
//!
//! An envelope carries the routing tag, an optional payload and the identity
//! of the peer connection it arrived on. It is immutable once received and is
//! moved, never copied, on delivery: exactly one channel holds it at a time.

use vstd::prelude::*;

use crate::tag::TypeTag;

verus! {

/// The decoded content of a wire message.
#[derive(Clone, Debug, PartialEq, Eq)]
pub enum EnvelopePayload {
    /// A protocol-level rejection notice, carrying the peer's stated reason.
    Reject { reason: String },
    /// Any other message content, opaque to the router.
    Content { data: Vec<u8> },
}

/// A wire message decoded into a payload plus the tag used to route it.
#[derive(Clone, Debug, PartialEq, Eq)]
pub struct Envelope {
    /// The protocol purpose of the message; the sole routing key.
    pub tag: TypeTag,
    /// The decoded payload, or nothing for a bare message.
    pub payload: Option<EnvelopePayload>,
    /// The identity of the peer connection the message arrived on.
    pub origin: u64,
}

impl Envelope {
    /// Whether this envelope is a protocol-level rejection notice.
    pub open spec fn is_reject(self) -> bool {
        self.payload matches Some(EnvelopePayload::Reject { .. })
    }
}

} // verus!
