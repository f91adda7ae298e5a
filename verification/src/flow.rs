//! The flow contract: the per-connection protocol handlers as the router
//! sees them, and the routing decisions their receive loops take.
//!
//! A flow's internal sub-protocol algorithm is out of scope; what is modeled
//! here is the contract every flow must satisfy to participate in routing:
//! run until its subscription reports end-of-stream, then exit; hold the
//! shared connection handle strongly — or weakly, for the one flow that must
//! not keep the connection alive on its own — and take part in the relay/IBD
//! handoff where assigned.

use vstd::prelude::*;

use crate::envelope::Envelope;
use crate::handoff::{HandoffChannel, HandoffSignal};

verus! {

/// Every flow variant the registrar constructs, one per sub-protocol.
#[derive(Clone, Copy, Debug, PartialEq, Eq, Structural)]
pub enum FlowKind {
    Ibd,
    HandleRelayInvs,
    HandleRelayBlockRequests,
    ReceivePings,
    SendPings,
    RequestHeaders,
    RequestPruningPointProof,
    RequestIbdChainBlockLocator,
    PruningPointAndItsAnticoneRequests,
    RequestPruningPointUtxoSet,
    HandleIbdBlockRequests,
    HandleAnticoneRequests,
    RelayTransactions,
    RequestTransactions,
    ReceiveAddresses,
    SendAddresses,
    RequestBlockLocator,
}

/// How a flow holds the shared connection handle.
#[derive(Clone, Copy, Debug, PartialEq, Eq, Structural)]
pub enum HandleMode {
    /// A strong shared reference: the flow keeps the connection alive.
    Strong,
    /// A non-owning reference, re-resolved each use: the flow must treat a
    /// handle that no longer resolves as connection-closed and exit.
    Weak,
}

/// A flow's part in the relay-to-IBD handoff, if any.
#[derive(Clone, Copy, Debug, PartialEq, Eq, Structural)]
pub enum HandoffRole {
    /// Sends start-sync signals (the relay-invs flow).
    Producer,
    /// Consumes start-sync signals (the IBD flow).
    Consumer,
    /// Takes no part in the handoff.
    Uninvolved,
}

/// What a flow's receive loop sees on one wakeup.
#[derive(Clone, Debug, PartialEq, Eq)]
pub enum StreamEvent {
    /// The subscription delivered an envelope.
    Message(Envelope),
    /// The subscription reports end-of-stream: the connection is torn down.
    Closed,
}

/// A flow's decision after one wakeup of its receive loop.
#[derive(Clone, Debug, PartialEq, Eq)]
pub enum FlowStep {
    /// Execute the flow's protocol step on this envelope, then loop.
    Process(Envelope),
    /// The flow's task completes; it must not linger past this point.
    Exit,
}

/// The one mandatory lifecycle rule of every flow's receive loop: process
/// each delivered envelope, and exit exactly when the subscription closes —
/// channel closure is the sole cancellation mechanism.
pub fn on_stream_event(event: StreamEvent) -> (step: FlowStep)
    ensures
        step is Exit <==> event is Closed,
        event matches StreamEvent::Message(e) ==> step == FlowStep::Process(e),
{
    match event {
        StreamEvent::Message(e) => FlowStep::Process(e),
        StreamEvent::Closed => FlowStep::Exit,
    }
}

/// The outcome of resolving the weak connection handle.
#[derive(Clone, Copy, Debug, PartialEq, Eq, Structural)]
pub enum HandleProbe {
    /// The connection object is still there; a strong reference was obtained.
    Alive,
    /// The connection object is gone: equivalent to connection-closed.
    Gone,
}

/// What the outbound-ping flow does on one tick.
#[derive(Clone, Copy, Debug, PartialEq, Eq, Structural)]
pub enum PingStep {
    /// Send a ping carrying this nonce through the resolved handle.
    SendPing { nonce: u64 },
    /// The handle no longer resolves: exit cleanly, without error.
    Exit,
}

/// The weak-handle rule of the outbound-ping flow: it re-resolves the weak
/// connection handle each tick, pings while the connection lives, and exits
/// cleanly — keeping no resource of the connection alive — once the handle
/// no longer resolves.
pub fn ping_sender_step(probe: HandleProbe, nonce: u64) -> (step: PingStep)
    ensures
        step is Exit <==> probe is Gone,
        probe is Alive ==> step == (PingStep::SendPing { nonce }),
{
    match probe {
        HandleProbe::Alive => PingStep::SendPing { nonce },
        HandleProbe::Gone => PingStep::Exit,
    }
}

/// What the relay-invs flow did about one block inventory advertisement.
#[derive(Clone, Copy, Debug, PartialEq, Eq, Structural)]
pub enum RelayStep {
    /// The peer may be ahead and the slot was free: a signal was handed off.
    SignalSent,
    /// The peer may be ahead but the prior signal is still unconsumed: the
    /// flow suspends further advertisement processing until the slot frees.
    SuspendOnHandoff,
    /// The advertisement gives no reason to sync; nothing was signalled.
    NoSignal,
}

/// The relay-invs flow's handoff decision for one advertisement: signal the
/// IBD flow when the peer looks ahead, but never hold more than one
/// outstanding signal — a full slot suspends the relay flow instead of
/// overwriting or dropping.
pub fn relay_invs_step(channel: &mut HandoffChannel, peer_may_be_ahead: bool, block: u64)
    -> (step: RelayStep)
    ensures
        !peer_may_be_ahead
            ==> step == RelayStep::NoSignal && *final(channel) == *old(channel),
        peer_may_be_ahead && old(channel).contents() is None
            ==> step == RelayStep::SignalSent
                && final(channel).contents() == Some(HandoffSignal { block }),
        peer_may_be_ahead && old(channel).contents() is Some
            ==> step == RelayStep::SuspendOnHandoff && *final(channel) == *old(channel),
        final(channel).pending() <= 1,
{
    if peer_may_be_ahead {
        if channel.try_send(HandoffSignal { block }) {
            RelayStep::SignalSent
        } else {
            RelayStep::SuspendOnHandoff
        }
    } else {
        RelayStep::NoSignal
    }
}

/// What the IBD flow does with the handoff slot on one wakeup.
#[derive(Clone, Copy, Debug, PartialEq, Eq, Structural)]
pub enum IbdStep {
    /// A signal was consumed and no sync is under way: begin a sync cycle
    /// toward the advertised block.
    StartSync { block: u64 },
    /// A signal was consumed while already mid-sync: ignored.
    AlreadySyncing,
    /// No signal was pending.
    Idle,
}

/// The IBD flow's side of the handoff: each wakeup consumes the pending
/// signal — always freeing the slot for the relay flow — and begins a sync
/// cycle unless one is already under way.
pub fn ibd_handoff_step(channel: &mut HandoffChannel, mid_sync: bool) -> (step: IbdStep)
    ensures
        final(channel).contents() is None,
        old(channel).contents() matches Some(sig)
            ==> step == (if mid_sync {
                    IbdStep::AlreadySyncing
                } else {
                    IbdStep::StartSync { block: sig.block }
                }),
        old(channel).contents() is None ==> step == IbdStep::Idle,
{
    match channel.try_recv() {
        Some(sig) => {
            if mid_sync {
                IbdStep::AlreadySyncing
            } else {
                IbdStep::StartSync { block: sig.block }
            }
        },
        None => IbdStep::Idle,
    }
}

} // verus!
