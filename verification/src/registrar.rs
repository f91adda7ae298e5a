//! The composition root: constructs every flow of a new connection, wires
//! their subscriptions, wires the relay-to-IBD handoff channel, claims the
//! complement of all flow tags for the drain, and hands the finished plan to
//! the connection lifecycle manager.
//!
//! Registration happens exactly once per connection, before any inbound
//! traffic is processed, and blocks on nothing; all waiting happens inside
//! the spawned flow tasks.

use vstd::prelude::*;

use crate::flow::{FlowKind, HandleMode, HandoffRole};
use crate::handoff::HandoffChannel;
use crate::registry::{Registry, BASELINE_CHANNEL_CAPACITY};
use crate::tag::TypeTag;

verus! {

broadcast use vstd::seq_lib::group_seq_properties;

/// How many flows the registrar constructs for one connection.
pub const FLOW_COUNT: usize = 17;

/// How many subscriptions the registrar creates, the drain's included.
pub const SUB_COUNT: usize = 20;

/// The subscription index of the drain: the last one registered.
pub const DRAIN_SUB: usize = 19;

/// The widened queue capacity of the transaction-inventory route, which must
/// absorb bursts of advertisement traffic without stalling the dispatcher.
pub const TRANSACTION_INV_CHANNEL_CAPACITY: usize = 4096;

/// One constructed flow: its identity, how it holds the connection handle,
/// its part in the handoff, and the subscriptions it owns.
pub struct FlowPlan {
    /// Which sub-protocol this flow handles.
    pub kind: FlowKind,
    /// Strong for every flow but the outbound-ping sender, which holds the
    /// connection weakly so it cannot keep a dead connection alive.
    pub handle: HandleMode,
    /// The flow's part in the relay-to-IBD handoff, if any.
    pub handoff: HandoffRole,
    /// The indices of the subscriptions this flow receives from.
    pub subs: Vec<usize>,
}

/// Everything `register` wires for one connection: the filled registry, the
/// flow set in construction order, the handoff channel, and the drain's
/// subscription index.
pub struct RouterPlan {
    /// The subscription registry, with every tag of the universe claimed.
    pub registry: Registry,
    /// The flows, in construction order.
    pub flows: Vec<FlowPlan>,
    /// The single-slot relay-to-IBD handoff channel, created before any flow.
    pub handoff: HandoffChannel,
    /// The subscription index of the drain.
    pub drain_sub: usize,
}

/// The routing table: the subscription that claims each tag of the universe.
/// Tags with no dedicated flow go to the drain.
pub open spec fn planned_sub(t: TypeTag) -> usize {
    match t {
        TypeTag::BlockHeaders => 0,
        TypeTag::DoneHeaders => 0,
        TypeTag::IbdBlockLocatorHighestHash => 0,
        TypeTag::IbdBlockLocatorHighestHashNotFound => 0,
        TypeTag::BlockWithTrustedDataV4 => 0,
        TypeTag::DoneBlocksWithTrustedData => 0,
        TypeTag::IbdChainBlockLocator => 0,
        TypeTag::IbdBlock => 0,
        TypeTag::TrustedData => 0,
        TypeTag::PruningPoints => 0,
        TypeTag::PruningPointProof => 0,
        TypeTag::UnexpectedPruningPoint => 0,
        TypeTag::PruningPointUtxoSetChunk => 0,
        TypeTag::DonePruningPointUtxoSetChunks => 0,
        TypeTag::InvRelayBlock => 1,
        TypeTag::Block => 2,
        TypeTag::BlockLocator => 2,
        TypeTag::RequestRelayBlocks => 3,
        TypeTag::Ping => 4,
        TypeTag::Pong => 5,
        TypeTag::RequestHeaders => 6,
        TypeTag::RequestNextHeaders => 6,
        TypeTag::RequestPruningPointProof => 7,
        TypeTag::RequestIbdChainBlockLocator => 8,
        TypeTag::RequestPruningPointAndItsAnticone => 9,
        TypeTag::RequestNextPruningPointAndItsAnticoneBlocks => 9,
        TypeTag::RequestPruningPointUtxoSet => 10,
        TypeTag::RequestNextPruningPointUtxoSetChunk => 10,
        TypeTag::RequestIbdBlocks => 11,
        TypeTag::RequestAnticone => 12,
        TypeTag::InvTransactions => 13,
        TypeTag::Transaction => 14,
        TypeTag::TransactionNotFound => 14,
        TypeTag::RequestTransactions => 15,
        TypeTag::Addresses => 16,
        TypeTag::RequestAddresses => 17,
        TypeTag::RequestBlockLocator => 18,
        TypeTag::Verack => 19,
        TypeTag::Version => 19,
        TypeTag::Ready => 19,
        TypeTag::Reject => 19,
        TypeTag::BlockWithTrustedData => 19,
        TypeTag::IbdBlockLocator => 19,
    }
}

/// The flow that receives from each subscription; the drain's has none.
pub open spec fn sub_owner_kind(s: int) -> Option<FlowKind> {
    if s == 0 { Some(FlowKind::Ibd) }
    else if s == 1 || s == 2 { Some(FlowKind::HandleRelayInvs) }
    else if s == 3 { Some(FlowKind::HandleRelayBlockRequests) }
    else if s == 4 { Some(FlowKind::ReceivePings) }
    else if s == 5 { Some(FlowKind::SendPings) }
    else if s == 6 { Some(FlowKind::RequestHeaders) }
    else if s == 7 { Some(FlowKind::RequestPruningPointProof) }
    else if s == 8 { Some(FlowKind::RequestIbdChainBlockLocator) }
    else if s == 9 { Some(FlowKind::PruningPointAndItsAnticoneRequests) }
    else if s == 10 { Some(FlowKind::RequestPruningPointUtxoSet) }
    else if s == 11 { Some(FlowKind::HandleIbdBlockRequests) }
    else if s == 12 { Some(FlowKind::HandleAnticoneRequests) }
    else if s == 13 || s == 14 { Some(FlowKind::RelayTransactions) }
    else if s == 15 { Some(FlowKind::RequestTransactions) }
    else if s == 16 { Some(FlowKind::ReceiveAddresses) }
    else if s == 17 { Some(FlowKind::SendAddresses) }
    else if s == 18 { Some(FlowKind::RequestBlockLocator) }
    else { None }
}

/// The flow that handles each tag, or none for a tag left to the drain.
pub open spec fn planned_flow(t: TypeTag) -> Option<FlowKind> {
    sub_owner_kind(planned_sub(t) as int)
}

/// The construction order of the flows.
pub open spec fn plan_kind(i: int) -> FlowKind {
    if i == 0 { FlowKind::Ibd }
    else if i == 1 { FlowKind::HandleRelayInvs }
    else if i == 2 { FlowKind::HandleRelayBlockRequests }
    else if i == 3 { FlowKind::ReceivePings }
    else if i == 4 { FlowKind::SendPings }
    else if i == 5 { FlowKind::RequestHeaders }
    else if i == 6 { FlowKind::RequestPruningPointProof }
    else if i == 7 { FlowKind::RequestIbdChainBlockLocator }
    else if i == 8 { FlowKind::PruningPointAndItsAnticoneRequests }
    else if i == 9 { FlowKind::RequestPruningPointUtxoSet }
    else if i == 10 { FlowKind::HandleIbdBlockRequests }
    else if i == 11 { FlowKind::HandleAnticoneRequests }
    else if i == 12 { FlowKind::RelayTransactions }
    else if i == 13 { FlowKind::RequestTransactions }
    else if i == 14 { FlowKind::ReceiveAddresses }
    else if i == 15 { FlowKind::SendAddresses }
    else { FlowKind::RequestBlockLocator }
}

/// Which handle each flow holds: every flow keeps the connection alive but
/// the outbound-ping sender, which must not.
pub open spec fn plan_handle(i: int) -> HandleMode {
    if i == 4 {
        HandleMode::Weak
    } else {
        HandleMode::Strong
    }
}

/// The handoff parts: the IBD flow consumes, the relay-invs flow produces.
pub open spec fn plan_handoff_role(i: int) -> HandoffRole {
    if i == 0 { HandoffRole::Consumer }
    else if i == 1 { HandoffRole::Producer }
    else { HandoffRole::Uninvolved }
}

/// The subscriptions each flow receives from, in its own receive order.
pub open spec fn plan_subs(i: int) -> Seq<usize> {
    if i == 0 { seq![0usize] }
    else if i == 1 { seq![1usize, 2usize] }
    else if i == 2 { seq![3usize] }
    else if i == 3 { seq![4usize] }
    else if i == 4 { seq![5usize] }
    else if i == 5 { seq![6usize] }
    else if i == 6 { seq![7usize] }
    else if i == 7 { seq![8usize] }
    else if i == 8 { seq![9usize] }
    else if i == 9 { seq![10usize] }
    else if i == 10 { seq![11usize] }
    else if i == 11 { seq![12usize] }
    else if i == 12 { seq![13usize, 14usize] }
    else if i == 13 { seq![15usize] }
    else if i == 14 { seq![16usize] }
    else if i == 15 { seq![17usize] }
    else { seq![18usize] }
}

/// The index each flow kind stands at in the construction order.
pub open spec fn flow_index(k: FlowKind) -> int {
    match k {
        FlowKind::Ibd => 0,
        FlowKind::HandleRelayInvs => 1,
        FlowKind::HandleRelayBlockRequests => 2,
        FlowKind::ReceivePings => 3,
        FlowKind::SendPings => 4,
        FlowKind::RequestHeaders => 5,
        FlowKind::RequestPruningPointProof => 6,
        FlowKind::RequestIbdChainBlockLocator => 7,
        FlowKind::PruningPointAndItsAnticoneRequests => 8,
        FlowKind::RequestPruningPointUtxoSet => 9,
        FlowKind::HandleIbdBlockRequests => 10,
        FlowKind::HandleAnticoneRequests => 11,
        FlowKind::RelayTransactions => 12,
        FlowKind::RequestTransactions => 13,
        FlowKind::ReceiveAddresses => 14,
        FlowKind::SendAddresses => 15,
        FlowKind::RequestBlockLocator => 16,
    }
}

/// Consistency of the routing table with the flow list: every tag owned by a
/// flow is claimed by one of that flow's subscriptions, and every tag owned
/// by no flow is claimed by the drain.
pub proof fn lemma_routing_table_consistent()
    ensures
        forall|t: TypeTag| (#[trigger] planned_flow(t)) is Some
            ==> plan_kind(flow_index(planned_flow(t)->0)) == planned_flow(t)->0
                && plan_subs(flow_index(planned_flow(t)->0)).contains(planned_sub(t)),
        forall|t: TypeTag| planned_flow(t) is None ==> planned_sub(t) == DRAIN_SUB,
        forall|k: FlowKind| 0 <= #[trigger] flow_index(k) < FLOW_COUNT
            && plan_kind(flow_index(k)) == k,
{
    assert forall|t: TypeTag| (#[trigger] planned_flow(t)) is Some
        implies plan_kind(flow_index(planned_flow(t)->0)) == planned_flow(t)->0
            && plan_subs(flow_index(planned_flow(t)->0)).contains(planned_sub(t)) by {
        let s = planned_sub(t);
        let i = flow_index(planned_flow(t)->0);
        if plan_subs(i).len() == 1 {
            assert(plan_subs(i)[0] == s);
        } else {
            if plan_subs(i)[0] != s {
                assert(plan_subs(i)[1] == s);
            }
        }
        assert(plan_subs(i).contains(s));
    }
}

/// The owner table as it stands after the first `k + 1` subscriptions: a
/// tag is claimed once the step that plans it has run.
spec fn owner_after(t: TypeTag, k: int) -> Option<usize> {
    if planned_sub(t) <= k {
        Some(planned_sub(t))
    } else {
        None
    }
}

/// Register the whole flow set of one new connection.
///
/// In the required order: the handoff channel is created before either of
/// the flows that use it; every flow's subscriptions are claimed, the
/// transaction-inventory route with its widened capacity; the drain claims
/// the exact complement of all claimed tags; and the finished plan goes back
/// to the caller, who drives the flows. Nothing here blocks, and afterwards
/// every tag of the universe is claimed by exactly one subscription.
#[verifier::rlimit(100)]
pub fn register() -> (plan: RouterPlan)
    ensures
        plan.registry.wf(),
        plan.registry.sub_count() == SUB_COUNT,
        plan.drain_sub == DRAIN_SUB,
        plan.handoff.contents() is None,
        forall|t: TypeTag| #[trigger] plan.registry.owner_of(t) == Some(planned_sub(t)),
        forall|t: TypeTag| plan.registry.claimed(t),
        forall|s: int| 0 <= s < SUB_COUNT
            ==> #[trigger] plan.registry.queue_of(s).len() == 0,
        forall|s: int| 0 <= s < SUB_COUNT
            ==> #[trigger] plan.registry.capacity_of(s) == (
                if s == 13 {
                    TRANSACTION_INV_CHANNEL_CAPACITY
                } else {
                    BASELINE_CHANNEL_CAPACITY
                }),
        plan.flows@.len() == FLOW_COUNT,
        forall|i: int| 0 <= i < FLOW_COUNT ==> #[trigger] plan.flows@[i].kind == plan_kind(i),
        forall|i: int| 0 <= i < FLOW_COUNT ==> #[trigger] plan.flows@[i].handle == plan_handle(i),
        forall|i: int| 0 <= i < FLOW_COUNT
            ==> #[trigger] plan.flows@[i].handoff == plan_handoff_role(i),
        forall|i: int| 0 <= i < FLOW_COUNT ==> #[trigger] plan.flows@[i].subs@ == plan_subs(i),
{
    // The handoff channel exists before its producer and consumer flows.
    let handoff = HandoffChannel::new();
    let mut registry = Registry::new();

    let ibd_tags: Vec<TypeTag> = vec![
        TypeTag::BlockHeaders,
        TypeTag::DoneHeaders,
        TypeTag::IbdBlockLocatorHighestHash,
        TypeTag::IbdBlockLocatorHighestHashNotFound,
        TypeTag::BlockWithTrustedDataV4,
        TypeTag::DoneBlocksWithTrustedData,
        TypeTag::IbdChainBlockLocator,
        TypeTag::IbdBlock,
        TypeTag::TrustedData,
        TypeTag::PruningPoints,
        TypeTag::PruningPointProof,
        TypeTag::UnexpectedPruningPoint,
        TypeTag::PruningPointUtxoSetChunk,
        TypeTag::DonePruningPointUtxoSetChunks,
    ];
    let ibd_sub = registry.subscribe(&ibd_tags);
    // After each subscription the owner table is re-stated as one step of
    // `owner_after`; naming the membership test of the step's tag set in the
    // proof lets the prover evaluate it.
    proof {
        assert forall|t: TypeTag| #[trigger] registry.owner_of(t) == owner_after(t, 0) by {
            let ghost claimed_here = ibd_tags@.contains(t);
            assert(claimed_here == ibd_tags@.contains(t));
        }
    }
    let relay_invs_tags: Vec<TypeTag> = vec![TypeTag::InvRelayBlock];
    let relay_invs_sub = registry.subscribe(&relay_invs_tags);
    proof {
        assert forall|t: TypeTag| #[trigger] registry.owner_of(t) == owner_after(t, 1) by {
            let ghost claimed_here = relay_invs_tags@.contains(t);
            assert(claimed_here == relay_invs_tags@.contains(t));
        }
    }
    let relay_blocks_tags: Vec<TypeTag> = vec![
        TypeTag::Block,
        TypeTag::BlockLocator,
    ];
    let relay_blocks_sub = registry.subscribe(&relay_blocks_tags);
    proof {
        assert forall|t: TypeTag| #[trigger] registry.owner_of(t) == owner_after(t, 2) by {
            let ghost claimed_here = relay_blocks_tags@.contains(t);
            assert(claimed_here == relay_blocks_tags@.contains(t));
        }
    }
    let relay_requests_tags: Vec<TypeTag> = vec![TypeTag::RequestRelayBlocks];
    let relay_requests_sub = registry.subscribe(&relay_requests_tags);
    proof {
        assert forall|t: TypeTag| #[trigger] registry.owner_of(t) == owner_after(t, 3) by {
            let ghost claimed_here = relay_requests_tags@.contains(t);
            assert(claimed_here == relay_requests_tags@.contains(t));
        }
    }
    let receive_pings_tags: Vec<TypeTag> = vec![TypeTag::Ping];
    let receive_pings_sub = registry.subscribe(&receive_pings_tags);
    proof {
        assert forall|t: TypeTag| #[trigger] registry.owner_of(t) == owner_after(t, 4) by {
            let ghost claimed_here = receive_pings_tags@.contains(t);
            assert(claimed_here == receive_pings_tags@.contains(t));
        }
    }
    let send_pings_tags: Vec<TypeTag> = vec![TypeTag::Pong];
    let send_pings_sub = registry.subscribe(&send_pings_tags);
    proof {
        assert forall|t: TypeTag| #[trigger] registry.owner_of(t) == owner_after(t, 5) by {
            let ghost claimed_here = send_pings_tags@.contains(t);
            assert(claimed_here == send_pings_tags@.contains(t));
        }
    }
    let request_headers_tags: Vec<TypeTag> = vec![
        TypeTag::RequestHeaders,
        TypeTag::RequestNextHeaders,
    ];
    let request_headers_sub = registry.subscribe(&request_headers_tags);
    proof {
        assert forall|t: TypeTag| #[trigger] registry.owner_of(t) == owner_after(t, 6) by {
            let ghost claimed_here = request_headers_tags@.contains(t);
            assert(claimed_here == request_headers_tags@.contains(t));
        }
    }
    let pp_proof_tags: Vec<TypeTag> = vec![TypeTag::RequestPruningPointProof];
    let pp_proof_sub = registry.subscribe(&pp_proof_tags);
    proof {
        assert forall|t: TypeTag| #[trigger] registry.owner_of(t) == owner_after(t, 7) by {
            let ghost claimed_here = pp_proof_tags@.contains(t);
            assert(claimed_here == pp_proof_tags@.contains(t));
        }
    }
    let ibd_chain_locator_tags: Vec<TypeTag> = vec![TypeTag::RequestIbdChainBlockLocator];
    let ibd_chain_locator_sub = registry.subscribe(&ibd_chain_locator_tags);
    proof {
        assert forall|t: TypeTag| #[trigger] registry.owner_of(t) == owner_after(t, 8) by {
            let ghost claimed_here = ibd_chain_locator_tags@.contains(t);
            assert(claimed_here == ibd_chain_locator_tags@.contains(t));
        }
    }
    let pp_anticone_tags: Vec<TypeTag> = vec![
        TypeTag::RequestPruningPointAndItsAnticone,
        TypeTag::RequestNextPruningPointAndItsAnticoneBlocks,
    ];
    let pp_anticone_sub = registry.subscribe(&pp_anticone_tags);
    proof {
        assert forall|t: TypeTag| #[trigger] registry.owner_of(t) == owner_after(t, 9) by {
            let ghost claimed_here = pp_anticone_tags@.contains(t);
            assert(claimed_here == pp_anticone_tags@.contains(t));
        }
    }
    let pp_utxo_tags: Vec<TypeTag> = vec![
        TypeTag::RequestPruningPointUtxoSet,
        TypeTag::RequestNextPruningPointUtxoSetChunk,
    ];
    let pp_utxo_sub = registry.subscribe(&pp_utxo_tags);
    proof {
        assert forall|t: TypeTag| #[trigger] registry.owner_of(t) == owner_after(t, 10) by {
            let ghost claimed_here = pp_utxo_tags@.contains(t);
            assert(claimed_here == pp_utxo_tags@.contains(t));
        }
    }
    let ibd_blocks_tags: Vec<TypeTag> = vec![TypeTag::RequestIbdBlocks];
    let ibd_blocks_sub = registry.subscribe(&ibd_blocks_tags);
    proof {
        assert forall|t: TypeTag| #[trigger] registry.owner_of(t) == owner_after(t, 11) by {
            let ghost claimed_here = ibd_blocks_tags@.contains(t);
            assert(claimed_here == ibd_blocks_tags@.contains(t));
        }
    }
    let anticone_tags: Vec<TypeTag> = vec![TypeTag::RequestAnticone];
    let anticone_sub = registry.subscribe(&anticone_tags);
    proof {
        assert forall|t: TypeTag| #[trigger] registry.owner_of(t) == owner_after(t, 12) by {
            let ghost claimed_here = anticone_tags@.contains(t);
            assert(claimed_here == anticone_tags@.contains(t));
        }
    }
    // The transaction-inventory route gets the widened capacity so bursty
    // advertisement traffic does not stall the dispatcher.
    let tx_invs_tags: Vec<TypeTag> = vec![TypeTag::InvTransactions];
    let tx_invs_sub = registry.subscribe_with_capacity(&tx_invs_tags, TRANSACTION_INV_CHANNEL_CAPACITY);
    proof {
        assert forall|t: TypeTag| #[trigger] registry.owner_of(t) == owner_after(t, 13) by {
            let ghost claimed_here = tx_invs_tags@.contains(t);
            assert(claimed_here == tx_invs_tags@.contains(t));
        }
    }
    let tx_content_tags: Vec<TypeTag> = vec![
        TypeTag::Transaction,
        TypeTag::TransactionNotFound,
    ];
    let tx_content_sub = registry.subscribe(&tx_content_tags);
    proof {
        assert forall|t: TypeTag| #[trigger] registry.owner_of(t) == owner_after(t, 14) by {
            let ghost claimed_here = tx_content_tags@.contains(t);
            assert(claimed_here == tx_content_tags@.contains(t));
        }
    }
    let request_tx_tags: Vec<TypeTag> = vec![TypeTag::RequestTransactions];
    let request_tx_sub = registry.subscribe(&request_tx_tags);
    proof {
        assert forall|t: TypeTag| #[trigger] registry.owner_of(t) == owner_after(t, 15) by {
            let ghost claimed_here = request_tx_tags@.contains(t);
            assert(claimed_here == request_tx_tags@.contains(t));
        }
    }
    let receive_addresses_tags: Vec<TypeTag> = vec![TypeTag::Addresses];
    let receive_addresses_sub = registry.subscribe(&receive_addresses_tags);
    proof {
        assert forall|t: TypeTag| #[trigger] registry.owner_of(t) == owner_after(t, 16) by {
            let ghost claimed_here = receive_addresses_tags@.contains(t);
            assert(claimed_here == receive_addresses_tags@.contains(t));
        }
    }
    let send_addresses_tags: Vec<TypeTag> = vec![TypeTag::RequestAddresses];
    let send_addresses_sub = registry.subscribe(&send_addresses_tags);
    proof {
        assert forall|t: TypeTag| #[trigger] registry.owner_of(t) == owner_after(t, 17) by {
            let ghost claimed_here = send_addresses_tags@.contains(t);
            assert(claimed_here == send_addresses_tags@.contains(t));
        }
    }
    let block_locator_tags: Vec<TypeTag> = vec![TypeTag::RequestBlockLocator];
    let block_locator_sub = registry.subscribe(&block_locator_tags);
    proof {
        assert forall|t: TypeTag| #[trigger] registry.owner_of(t) == owner_after(t, 18) by {
            let ghost claimed_here = block_locator_tags@.contains(t);
            assert(claimed_here == block_locator_tags@.contains(t));
        }
    }
    // The drain claims the exact complement of everything claimed above.
    let drain_sub = registry.subscribe_remaining(BASELINE_CHANNEL_CAPACITY);

    let flows: Vec<FlowPlan> = vec![
        FlowPlan {
            kind: FlowKind::Ibd,
            handle: HandleMode::Strong,
            handoff: HandoffRole::Consumer,
            subs: vec![ibd_sub],
        },
        FlowPlan {
            kind: FlowKind::HandleRelayInvs,
            handle: HandleMode::Strong,
            handoff: HandoffRole::Producer,
            subs: vec![relay_invs_sub, relay_blocks_sub],
        },
        FlowPlan {
            kind: FlowKind::HandleRelayBlockRequests,
            handle: HandleMode::Strong,
            handoff: HandoffRole::Uninvolved,
            subs: vec![relay_requests_sub],
        },
        FlowPlan {
            kind: FlowKind::ReceivePings,
            handle: HandleMode::Strong,
            handoff: HandoffRole::Uninvolved,
            subs: vec![receive_pings_sub],
        },
        FlowPlan {
            kind: FlowKind::SendPings,
            handle: HandleMode::Weak,
            handoff: HandoffRole::Uninvolved,
            subs: vec![send_pings_sub],
        },
        FlowPlan {
            kind: FlowKind::RequestHeaders,
            handle: HandleMode::Strong,
            handoff: HandoffRole::Uninvolved,
            subs: vec![request_headers_sub],
        },
        FlowPlan {
            kind: FlowKind::RequestPruningPointProof,
            handle: HandleMode::Strong,
            handoff: HandoffRole::Uninvolved,
            subs: vec![pp_proof_sub],
        },
        FlowPlan {
            kind: FlowKind::RequestIbdChainBlockLocator,
            handle: HandleMode::Strong,
            handoff: HandoffRole::Uninvolved,
            subs: vec![ibd_chain_locator_sub],
        },
        FlowPlan {
            kind: FlowKind::PruningPointAndItsAnticoneRequests,
            handle: HandleMode::Strong,
            handoff: HandoffRole::Uninvolved,
            subs: vec![pp_anticone_sub],
        },
        FlowPlan {
            kind: FlowKind::RequestPruningPointUtxoSet,
            handle: HandleMode::Strong,
            handoff: HandoffRole::Uninvolved,
            subs: vec![pp_utxo_sub],
        },
        FlowPlan {
            kind: FlowKind::HandleIbdBlockRequests,
            handle: HandleMode::Strong,
            handoff: HandoffRole::Uninvolved,
            subs: vec![ibd_blocks_sub],
        },
        FlowPlan {
            kind: FlowKind::HandleAnticoneRequests,
            handle: HandleMode::Strong,
            handoff: HandoffRole::Uninvolved,
            subs: vec![anticone_sub],
        },
        FlowPlan {
            kind: FlowKind::RelayTransactions,
            handle: HandleMode::Strong,
            handoff: HandoffRole::Uninvolved,
            subs: vec![tx_invs_sub, tx_content_sub],
        },
        FlowPlan {
            kind: FlowKind::RequestTransactions,
            handle: HandleMode::Strong,
            handoff: HandoffRole::Uninvolved,
            subs: vec![request_tx_sub],
        },
        FlowPlan {
            kind: FlowKind::ReceiveAddresses,
            handle: HandleMode::Strong,
            handoff: HandoffRole::Uninvolved,
            subs: vec![receive_addresses_sub],
        },
        FlowPlan {
            kind: FlowKind::SendAddresses,
            handle: HandleMode::Strong,
            handoff: HandoffRole::Uninvolved,
            subs: vec![send_addresses_sub],
        },
        FlowPlan {
            kind: FlowKind::RequestBlockLocator,
            handle: HandleMode::Strong,
            handoff: HandoffRole::Uninvolved,
            subs: vec![block_locator_sub],
        },
    ];

    proof {
        assert forall|i: int| 0 <= i < FLOW_COUNT
            implies #[trigger] flows@[i].subs@ == plan_subs(i) by {
            assert(flows@[i].subs@ =~= plan_subs(i));
        }
        assert forall|t: TypeTag| #[trigger] registry.owner_of(t) == Some(planned_sub(t)) by {
            assert(planned_sub(t) <= 19);
        }
        assert forall|s: int| 0 <= s < SUB_COUNT
            implies #[trigger] registry.queue_of(s).len() == 0 by {
        }
        assert forall|s: int| 0 <= s < SUB_COUNT
            implies #[trigger] registry.capacity_of(s) == (
                if s == 13 {
                    TRANSACTION_INV_CHANNEL_CAPACITY
                } else {
                    BASELINE_CHANNEL_CAPACITY
                }) by {
        }
    }

    RouterPlan { registry, flows, handoff, drain_sub }
}

} // verus!
