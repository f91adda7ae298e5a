use flow_router::envelope::Envelope;
use flow_router::flow::{
    ibd_handoff_step, on_stream_event, ping_sender_step, relay_invs_step, FlowStep, HandleProbe,
    IbdStep, PingStep, RelayStep, StreamEvent,
};
use flow_router::handoff::{HandoffChannel, HandoffSignal};
use flow_router::register;
use flow_router::tag::TypeTag;

#[test]
fn handoff_second_send_blocks_until_one_receive() {
    let mut channel = HandoffChannel::new();
    assert!(channel.try_send(HandoffSignal { block: 1 }));
    // The slot is occupied: a second back-to-back signal is not accepted
    // until the IBD side performs one receive.
    assert!(!channel.try_send(HandoffSignal { block: 2 }));
    assert!(!channel.try_send(HandoffSignal { block: 2 }));
    assert_eq!(channel.try_recv(), Some(HandoffSignal { block: 1 }));
    assert!(channel.try_send(HandoffSignal { block: 2 }));
    assert_eq!(channel.try_recv(), Some(HandoffSignal { block: 2 }));
    assert_eq!(channel.try_recv(), None);
}

#[test]
fn handoff_blocked_send_never_overwrites() {
    let mut channel = HandoffChannel::new();
    assert!(channel.try_send(HandoffSignal { block: 10 }));
    assert!(!channel.try_send(HandoffSignal { block: 11 }));
    // The pending signal is still the first one, untouched.
    assert_eq!(channel.try_recv(), Some(HandoffSignal { block: 10 }));
}

#[test]
fn relay_step_signals_when_peer_may_be_ahead() {
    let mut channel = HandoffChannel::new();
    assert_eq!(relay_invs_step(&mut channel, false, 5), RelayStep::NoSignal);
    assert_eq!(channel.try_recv(), None);
    assert_eq!(relay_invs_step(&mut channel, true, 5), RelayStep::SignalSent);
    assert_eq!(relay_invs_step(&mut channel, true, 6), RelayStep::SuspendOnHandoff);
    assert_eq!(channel.try_recv(), Some(HandoffSignal { block: 5 }));
}

#[test]
fn ibd_step_consumes_and_frees_the_slot() {
    let mut channel = HandoffChannel::new();
    assert_eq!(ibd_handoff_step(&mut channel, false), IbdStep::Idle);
    relay_invs_step(&mut channel, true, 9);
    assert_eq!(ibd_handoff_step(&mut channel, false), IbdStep::StartSync { block: 9 });
    relay_invs_step(&mut channel, true, 12);
    // Mid-sync the signal is ignored, but the slot is freed either way.
    assert_eq!(ibd_handoff_step(&mut channel, true), IbdStep::AlreadySyncing);
    assert_eq!(channel.try_recv(), None);
}

#[test]
fn stream_closure_is_the_exit_trigger_for_every_flow() {
    let plan = register();
    for _flow in plan.flows.iter() {
        // Whatever the flow, end-of-stream is its one mandatory exit.
        assert_eq!(on_stream_event(StreamEvent::Closed), FlowStep::Exit);
    }
    let envelope = Envelope { tag: TypeTag::Ping, payload: None, origin: 3 };
    match on_stream_event(StreamEvent::Message(envelope.clone())) {
        FlowStep::Process(e) => assert_eq!(e, envelope),
        FlowStep::Exit => panic!("a delivered envelope must be processed"),
    }
}

#[test]
fn ping_sender_exits_once_the_weak_handle_is_gone() {
    assert_eq!(ping_sender_step(HandleProbe::Alive, 77), PingStep::SendPing { nonce: 77 });
    // After teardown the weak handle no longer resolves: clean exit, and the
    // flow holds nothing that would keep the connection's resources alive.
    assert_eq!(ping_sender_step(HandleProbe::Gone, 78), PingStep::Exit);
}
