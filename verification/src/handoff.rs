//! The single-slot handoff channel between the block-relay flow and the
//! initial-block-download flow.
//!
//! The channel carries only the signal "a new inventory advertisement arrived
//! while this peer might be ahead"; it buffers no content. Its capacity is
//! exactly one: a sender that finds the slot occupied must wait until the
//! consumer has taken the prior signal, which bounds memory to one pending
//! signal and keeps stale "peer is ahead" notices from piling up.

use vstd::prelude::*;

verus! {

/// One synchronization signal: the advertised block the peer may be ahead by.
#[derive(Clone, Copy, Debug, PartialEq, Eq, Structural)]
pub struct HandoffSignal {
    /// An identifier of the advertised block that triggered the signal.
    pub block: u64,
}

/// A queue of capacity exactly one, from the relay flow to the IBD flow.
pub struct HandoffChannel {
    slot: Option<HandoffSignal>,
}

impl HandoffChannel {
    /// The signal waiting to be consumed, if any.
    pub closed spec fn contents(self) -> Option<HandoffSignal> {
        self.slot
    }

    /// How many signals wait in the channel: zero or one, never more.
    pub open spec fn pending(self) -> nat {
        if self.contents() is Some {
            1
        } else {
            0
        }
    }

    /// An empty handoff channel.
    pub fn new() -> (c: HandoffChannel)
        ensures
            c.contents() is None,
    {
        HandoffChannel { slot: None }
    }

    /// Offer a signal. It is accepted only when the slot is free; a full
    /// channel leaves the signal with the caller, who must wait and retry —
    /// the pending signal is never overwritten and never dropped.
    pub fn try_send(&mut self, sig: HandoffSignal) -> (accepted: bool)
        ensures
            accepted == (old(self).contents() is None),
            accepted ==> final(self).contents() == Some(sig),
            !accepted ==> *final(self) == *old(self),
    {
        if self.slot.is_none() {
            self.slot = Some(sig);
            true
        } else {
            false
        }
    }

    /// Take the pending signal, freeing the slot.
    pub fn try_recv(&mut self) -> (r: Option<HandoffSignal>)
        ensures
            r == old(self).contents(),
            final(self).contents() is None,
    {
        self.slot.take()
    }
}

/// Handoff bound law: the channel never holds more than one pending signal,
/// and an offer against a full channel changes nothing — the second signal is
/// held back (the sender suspends) rather than overwriting or dropping.
pub proof fn lemma_handoff_bound(pre: HandoffChannel, post: HandoffChannel, sig: HandoffSignal,
    accepted: bool)
    requires
        accepted == (pre.contents() is None),
        accepted ==> post.contents() == Some(sig),
        !accepted ==> post.contents() == pre.contents(),
    ensures
        post.pending() <= 1,
        pre.pending() == 1 ==> !accepted && post == pre,
{
    if pre.contents() is Some {
        assert(post.contents() == pre.contents());
    }
}

} // verus!
