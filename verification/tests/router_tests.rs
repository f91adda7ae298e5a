use flow_router::drain::{drain_classify, drain_consume, DrainAction};
use flow_router::envelope::{Envelope, EnvelopePayload};
use flow_router::flow::{FlowKind, HandleMode, HandoffRole};
use flow_router::register;
use flow_router::registrar::{DRAIN_SUB, FLOW_COUNT, SUB_COUNT, TRANSACTION_INV_CHANNEL_CAPACITY};
use flow_router::registry::{Registry, BASELINE_CHANNEL_CAPACITY};
use flow_router::tag::{all_tags, TypeTag, TAG_COUNT};

fn envelope(tag: TypeTag) -> Envelope {
    Envelope { tag, payload: None, origin: 7 }
}

fn expected_sub(tag: TypeTag) -> usize {
    match tag {
        TypeTag::BlockHeaders
        | TypeTag::DoneHeaders
        | TypeTag::IbdBlockLocatorHighestHash
        | TypeTag::IbdBlockLocatorHighestHashNotFound
        | TypeTag::BlockWithTrustedDataV4
        | TypeTag::DoneBlocksWithTrustedData
        | TypeTag::IbdChainBlockLocator
        | TypeTag::IbdBlock
        | TypeTag::TrustedData
        | TypeTag::PruningPoints
        | TypeTag::PruningPointProof
        | TypeTag::UnexpectedPruningPoint
        | TypeTag::PruningPointUtxoSetChunk
        | TypeTag::DonePruningPointUtxoSetChunks => 0,
        TypeTag::InvRelayBlock => 1,
        TypeTag::Block | TypeTag::BlockLocator => 2,
        TypeTag::RequestRelayBlocks => 3,
        TypeTag::Ping => 4,
        TypeTag::Pong => 5,
        TypeTag::RequestHeaders | TypeTag::RequestNextHeaders => 6,
        TypeTag::RequestPruningPointProof => 7,
        TypeTag::RequestIbdChainBlockLocator => 8,
        TypeTag::RequestPruningPointAndItsAnticone
        | TypeTag::RequestNextPruningPointAndItsAnticoneBlocks => 9,
        TypeTag::RequestPruningPointUtxoSet | TypeTag::RequestNextPruningPointUtxoSetChunk => 10,
        TypeTag::RequestIbdBlocks => 11,
        TypeTag::RequestAnticone => 12,
        TypeTag::InvTransactions => 13,
        TypeTag::Transaction | TypeTag::TransactionNotFound => 14,
        TypeTag::RequestTransactions => 15,
        TypeTag::Addresses => 16,
        TypeTag::RequestAddresses => 17,
        TypeTag::RequestBlockLocator => 18,
        TypeTag::Verack
        | TypeTag::Version
        | TypeTag::Ready
        | TypeTag::Reject
        | TypeTag::BlockWithTrustedData
        | TypeTag::IbdBlockLocator => DRAIN_SUB,
    }
}

#[test]
fn register_claims_every_tag_exactly_once() {
    let plan = register();
    let tags = all_tags();
    assert_eq!(tags.len(), TAG_COUNT);
    for tag in tags {
        let owner = plan.registry.route_of(tag);
        assert_eq!(owner, Some(expected_sub(tag)), "tag {:?}", tag);
    }
}

#[test]
fn register_drain_owns_exactly_the_unclaimed_tags() {
    let plan = register();
    let drained: Vec<TypeTag> = all_tags()
        .into_iter()
        .filter(|t| plan.registry.route_of(*t) == Some(plan.drain_sub))
        .collect();
    assert_eq!(
        drained,
        vec![
            TypeTag::Verack,
            TypeTag::Version,
            TypeTag::Ready,
            TypeTag::Reject,
            TypeTag::BlockWithTrustedData,
            TypeTag::IbdBlockLocator,
        ]
    );
}

#[test]
fn register_builds_the_full_flow_set() {
    let plan = register();
    assert_eq!(plan.flows.len(), FLOW_COUNT);
    let kinds: Vec<FlowKind> = plan.flows.iter().map(|f| f.kind).collect();
    assert_eq!(
        kinds,
        vec![
            FlowKind::Ibd,
            FlowKind::HandleRelayInvs,
            FlowKind::HandleRelayBlockRequests,
            FlowKind::ReceivePings,
            FlowKind::SendPings,
            FlowKind::RequestHeaders,
            FlowKind::RequestPruningPointProof,
            FlowKind::RequestIbdChainBlockLocator,
            FlowKind::PruningPointAndItsAnticoneRequests,
            FlowKind::RequestPruningPointUtxoSet,
            FlowKind::HandleIbdBlockRequests,
            FlowKind::HandleAnticoneRequests,
            FlowKind::RelayTransactions,
            FlowKind::RequestTransactions,
            FlowKind::ReceiveAddresses,
            FlowKind::SendAddresses,
            FlowKind::RequestBlockLocator,
        ]
    );
    assert_eq!(plan.flows[0].subs, vec![0]);
    assert_eq!(plan.flows[1].subs, vec![1, 2]);
    assert_eq!(plan.flows[12].subs, vec![13, 14]);
    assert_eq!(plan.flows[16].subs, vec![18]);
    assert_eq!(plan.drain_sub, DRAIN_SUB);
}

#[test]
fn register_only_the_ping_sender_holds_a_weak_handle() {
    let plan = register();
    for (i, flow) in plan.flows.iter().enumerate() {
        if flow.kind == FlowKind::SendPings {
            assert_eq!(flow.handle, HandleMode::Weak);
        } else {
            assert_eq!(flow.handle, HandleMode::Strong, "flow {}", i);
        }
    }
}

#[test]
fn register_wires_the_handoff_between_relay_and_ibd() {
    let plan = register();
    for flow in plan.flows.iter() {
        let expected = match flow.kind {
            FlowKind::Ibd => HandoffRole::Consumer,
            FlowKind::HandleRelayInvs => HandoffRole::Producer,
            _ => HandoffRole::Uninvolved,
        };
        assert_eq!(flow.handoff, expected);
    }
}

#[test]
fn register_widens_only_the_transaction_inventory_capacity() {
    let plan = register();
    for sid in 0..SUB_COUNT {
        let expected = if sid == 13 { TRANSACTION_INV_CHANNEL_CAPACITY } else { BASELINE_CHANNEL_CAPACITY };
        assert_eq!(plan.registry.capacity(sid), expected, "sub {}", sid);
        assert_eq!(plan.registry.queue_len(sid), 0, "sub {}", sid);
    }
}

#[test]
fn routing_scenario_delivers_per_flow_in_order() {
    // Flow A claims one tag, flow B two, the drain the rest; a mixed inbound
    // sequence lands on each channel in arrival order, nothing anywhere else.
    let mut registry = Registry::new();
    let a = registry.subscribe(&vec![TypeTag::Block]);
    let b = registry.subscribe(&vec![TypeTag::Ping, TypeTag::Pong]);
    let drain = registry.subscribe_remaining(BASELINE_CHANNEL_CAPACITY);

    registry.deliver_all(vec![
        envelope(TypeTag::Block),
        envelope(TypeTag::Ping),
        envelope(TypeTag::Verack),
        envelope(TypeTag::Pong),
        envelope(TypeTag::Block),
    ]);

    assert_eq!(registry.queue_len(a), 2);
    assert_eq!(registry.recv(a).unwrap().tag, TypeTag::Block);
    assert_eq!(registry.recv(a).unwrap().tag, TypeTag::Block);
    assert!(registry.recv(a).is_none());

    assert_eq!(registry.queue_len(b), 2);
    assert_eq!(registry.recv(b).unwrap().tag, TypeTag::Ping);
    assert_eq!(registry.recv(b).unwrap().tag, TypeTag::Pong);
    assert!(registry.recv(b).is_none());

    assert_eq!(registry.queue_len(drain), 1);
    assert_eq!(registry.recv(drain).unwrap().tag, TypeTag::Verack);
    assert!(registry.recv(drain).is_none());
}

#[test]
fn same_tag_messages_keep_arrival_order() {
    let mut registry = Registry::new();
    let sid = registry.subscribe(&vec![TypeTag::Ping]);
    for origin in 1..=4u64 {
        registry.deliver(Envelope { tag: TypeTag::Ping, payload: None, origin });
    }
    for origin in 1..=4u64 {
        assert_eq!(registry.recv(sid).unwrap().origin, origin);
    }
    assert!(registry.recv(sid).is_none());
}

#[test]
fn full_subscription_exerts_backpressure_without_dropping() {
    let mut registry = Registry::new();
    let sid = registry.subscribe_with_capacity(&vec![TypeTag::Ping], 1);
    assert!(!registry.backpressured(sid));
    registry.deliver(envelope(TypeTag::Ping));
    // The queue is at capacity: the dispatcher must suspend here, but the
    // message already enqueued is kept.
    assert!(registry.backpressured(sid));
    assert_eq!(registry.queue_len(sid), 1);
    registry.recv(sid).unwrap();
    assert!(!registry.backpressured(sid));
}

#[test]
fn drain_classify_surfaces_rejects_at_warning_level() {
    let action = drain_classify(Envelope {
        tag: TypeTag::Reject,
        payload: Some(EnvelopePayload::Reject { reason: String::from("bad block") }),
        origin: 42,
    });
    assert_eq!(
        action,
        DrainAction::WarnReject { reason: String::from("bad block"), origin: 42 }
    );
}

#[test]
fn drain_classify_keeps_everything_else_diagnostic() {
    assert_eq!(drain_classify(envelope(TypeTag::Verack)), DrainAction::LogIgnored);
    assert_eq!(
        drain_classify(Envelope {
            tag: TypeTag::Version,
            payload: Some(EnvelopePayload::Content { data: vec![1, 2, 3] }),
            origin: 9,
        }),
        DrainAction::LogIgnored
    );
}

#[test]
fn drain_consume_retains_nothing_under_sustained_traffic() {
    let mut plan = register();
    let drain = plan.drain_sub;
    for round in 0..3 {
        plan.registry.deliver_all(vec![
            envelope(TypeTag::Verack),
            Envelope {
                tag: TypeTag::Reject,
                payload: Some(EnvelopePayload::Reject { reason: String::from("no") }),
                origin: round,
            },
            envelope(TypeTag::Ready),
        ]);
        let actions = drain_consume(&mut plan.registry, drain);
        assert_eq!(actions.len(), 3);
        assert_eq!(actions[0], DrainAction::LogIgnored);
        assert_eq!(
            actions[1],
            DrainAction::WarnReject { reason: String::from("no"), origin: round }
        );
        assert_eq!(actions[2], DrainAction::LogIgnored);
        // The drain's queue is empty again: no memory growth across rounds.
        assert_eq!(plan.registry.queue_len(drain), 0);
    }
}
