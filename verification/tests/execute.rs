use twinvpn_core::build_identity::BuildStamp;
use twinvpn_core::datapath::frame::{DataHeader, ReceiverIndex};
use twinvpn_core::datapath::outcome::Step;
use twinvpn_core::datapath::Datapath;
use twinvpn_core::enforce::{Ruleset, TeardownAction, TunnelHandle};
use twinvpn_core::establish::{gather, Bind, InterfaceFacts, Round, SocketFamily};
use twinvpn_core::events::{CoreEventKind, SessionEvent, TransitionRecord};
use twinvpn_core::execute::bring_up::{net_up, net_up_step, UpAction, UpEvent};
use twinvpn_core::execute::carriage::{
    leg_bound, leg_opened, observe, open_relay, relay_frame, relay_inbound, relay_outbound,
    relay_sent, relay_step, relay_written, spawn_both, start, step, steps, BindOutcome, Failover, RelayStep,
    RuntimeKind, StartStep,
};
use twinvpn_core::execute::connect::{
    connect, connect_step, reconnect, ConnectAction, ConnectEvent,
};
use twinvpn_core::execute::establishment::{carry, carry_step, CarryAction, CarryEvent};
use twinvpn_core::execute::handshake::{Handshaken, Refusal};
use twinvpn_core::execute::report::{
    contributions, default_reason_for, session_get, status_sample, Aggregate,
};
use twinvpn_core::execute::sweep::{
    close_one, closed, host_lifecycle, host_network_changed, net_down, net_down_step, sweep_step,
    DownAction, DownEvent, SweepAction,
};
use twinvpn_core::instance::{Core, CoreParts};
use twinvpn_core::lite::Profile;
use twinvpn_core::planes::PeerRecord;
use twinvpn_core::reason::{Component, Diagnostic, ReasonCode};
use twinvpn_core::session::{ConnectionState, Event, PathClass, SessionState};
use twinvpn_core::session_table::{Applied, Keying, MachineReport};
use twinvpn_core::upkeep::{TickAction, TickEvent};
use twinvpn_core::types::{
    DeviceId, IpAddr, IpPrefix, OverlayAddresses, PerFamily, Port, SessionId, TwinnetId, V4Addr,
    V6Addr,
};

fn instance() -> Core {
    match Core::create(CoreParts {
        abi_major_expected: 1,
        abi_major: 1,
        abi_minor: 1,
        schema_digest: Vec::new(),
        crypto_provider: String::new(),
        sek_custody: String::new(),
        hardware_backed: false,
        adapter_binding: "mock",
        stamp: BuildStamp {
            target_triple: "unknown",
            source_commit: "",
            reason_registry_version: 2,
        },
        profile: Profile::Full,
        event_capacity: 64,
        instance_id: 1,
    }) {
        Ok(core) => core,
        Err(d) => panic!("creates, got {d:?}"),
    }
}

fn device(byte: u8) -> DeviceId {
    DeviceId::from_slice(&[byte; 32]).expect("32")
}

fn session(byte: u8) -> SessionId {
    SessionId::from_slice(&[byte; 16]).expect("16")
}

fn report(state: SessionState) -> MachineReport {
    MachineReport {
        state,
        reason: None,
        carrier: None,
        has_path: false,
    }
}

fn moved(id: SessionId, from: SessionState, to: SessionState) -> Applied {
    Applied {
        report: report(to),
        record: Some(TransitionRecord {
            session_id: id,
            from,
            to,
            reason: None,
        }),
    }
}

fn authorize(core: &mut Core, peer: DeviceId) {
    let record = PeerRecord {
        device_id: peer,
        generation: 1,
        tk_generation: 1,
        tunnel_key_binding_verified: true,
        endpoints: Vec::new(),
        overlay: OverlayAddresses {
            v4: V4Addr::from_slice(&[100, 64, 0, 1]).expect("v4"),
            v6: V6Addr::from_slice(&[0xfd; 16], 0).expect("v6"),
        },
    };
    core.control_plane_port()
        .put_peer(&TwinnetId::new("tn"), record);
}

fn round() -> Round {
    let facts = InterfaceFacts {
        addresses: vec![IpPrefix::new(
            IpAddr::V4(V4Addr::from_slice(&[192, 0, 2, 10]).expect("v4")),
            32,
        )
        .expect("prefix")],
        is_overlay: false,
        is_up: true,
        mtu: 1500,
    };
    let bound = Bind::Bound(Port::new(40_000).expect("port"));
    let times = PerFamily {
        v4: vec![0],
        v6: Vec::new(),
    };
    Round {
        gathered: gather(
            session(1),
            &Some(vec![facts]),
            bound,
            Bind::Unsupported,
            &times,
        ),
        sockets: vec![SocketFamily::V4],
    }
}

fn keying() -> Keying {
    Keying {
        twinnet: TwinnetId::new("tn"),
        local_device: device(9),
    }
}

/// Connects up to the point where the session is to be established.
fn connected_to(core: &mut Core, byte: u8) -> twinvpn_core::execute::connect::ConnectRun {
    authorize(core, device(byte));
    let (run, action) = connect(core, session(byte), device(byte), Some("dana".to_owned()));
    assert!(matches!(action, ConnectAction::Gather));
    let (run, action) = connect_step(core, run, ConnectEvent::Gathered(round()));
    assert!(matches!(action, ConnectAction::Identify));
    let (run, action) = connect_step(core, run, ConnectEvent::Identity(true));
    match action {
        ConnectAction::Apply { event, guards } => {
            assert_eq!(event, Event::ConnectRequested);
            assert!(guards.credentials_valid && guards.peer_authorized);
            assert!(guards.usable_candidate && !guards.path_validated);
        }
        other => panic!("told, got {other:?}"),
    }
    let requested = moved(
        session(byte),
        SessionState::Disconnected,
        SessionState::Discovering,
    );
    let (run, action) = connect_step(core, run, ConnectEvent::Applied(requested));
    assert!(matches!(action, ConnectAction::ReadClock));
    let (run, action) = connect_step(core, run, ConnectEvent::Now(77));
    match action {
        ConnectAction::Race(admitted) => {
            assert_eq!(admitted.first_direct_probe, Some(77));
            assert_eq!(admitted.candidates.len(), 1);
        }
        other => panic!("races, got {other:?}"),
    }
    let (run, action) = connect_step(core, run, ConnectEvent::Raced);
    assert!(matches!(
        action,
        ConnectAction::Apply {
            event: Event::CandidatesReady,
            ..
        }
    ));
    let ready = moved(
        session(byte),
        SessionState::Discovering,
        SessionState::Negotiating,
    );
    let (run, action) = connect_step(core, run, ConnectEvent::Applied(ready));
    assert!(matches!(action, ConnectAction::Probe));
    let (run, action) = connect_step(core, run, ConnectEvent::Probed(0));
    assert!(matches!(action, ConnectAction::Carry));
    run
}

/// Establishes a session whose machine stands where `connected_to` left it.
fn established(core: &mut Core, byte: u8) -> u32 {
    let id = session(byte);
    core.install_tunnel_keying(id, device(byte), keying());
    let (run, action) = carry(core, id, None);
    assert!(matches!(
        action,
        CarryAction::Apply {
            event: Event::NegotiationOk,
            ..
        }
    ));
    let negotiated = moved(id, SessionState::Negotiating, SessionState::Connecting);
    let (run, action) = carry_step(core, run, CarryEvent::Applied(negotiated));
    match action {
        CarryAction::Handshake(attempt) => {
            assert!(attempt.keyed);
            assert_eq!(attempt.local_device, device(9));
        }
        other => panic!("shakes hands, got {other:?}"),
    }
    let done = Handshaken {
        local_receiver: ReceiverIndex(1),
        peer_receiver: ReceiverIndex(2),
    };
    let (run, action) = carry_step(core, run, CarryEvent::Handshaken(Ok(done)));
    assert!(matches!(action, CarryAction::StartPump));
    let (run, action) = carry_step(core, run, CarryEvent::PumpStarted);
    match action {
        CarryAction::Apply { event, guards, .. } => {
            assert_eq!(event, Event::HandshakeOk(PathClass::WanDirect));
            assert!(guards.path_validated && guards.no_l2_path_won);
            assert!(!guards.no_direct_path_won);
        }
        other => panic!("told, got {other:?}"),
    }
    let steady = moved(
        id,
        SessionState::Connecting,
        SessionState::Steady(PathClass::WanDirect),
    );
    match carry_step(core, run, CarryEvent::Applied(steady)).1 {
        CarryAction::Done(effects) => effects,
        other => panic!("over, got {other:?}"),
    }
}

fn drained(core: &mut Core) -> Vec<CoreEventKind> {
    let mut kinds = Vec::new();
    while let Some(event) = core.next_event() {
        kinds.push(event.kind);
    }
    kinds
}

#[test]
fn a_connect_that_completes_leaves_a_record_and_an_event() {
    let mut core = instance();
    let run = connected_to(&mut core, 1);
    let effects = established(&mut core, 1);
    assert_eq!(effects, 2);
    let (_, action) = connect_step(&mut core, run, ConnectEvent::Carried(effects));
    assert!(matches!(action, ConnectAction::Done(Ok(8))));
    assert!(core.any_session_connected());
    let kept = core.journal.load_all();
    assert_eq!(kept.len(), 1);
    assert_eq!(kept[0].last_state, SessionState::Steady(PathClass::WanDirect));
    let kinds = drained(&mut core);
    assert_eq!(kinds.len(), 5);
    assert!(matches!(
        kinds[4],
        CoreEventKind::SessionEvent(SessionEvent::ConnectionRequested { by_user: true, .. })
    ));
}

#[test]
fn a_connect_without_trust_changes_nothing() {
    let mut core = instance();
    let (run, _) = connect(&core, session(1), device(1), None);
    let (run, _) = connect_step(&mut core, run, ConnectEvent::Gathered(round()));
    let (_, action) = connect_step(&mut core, run, ConnectEvent::Identity(false));
    match action {
        ConnectAction::Done(Err(d)) => assert_eq!(d.code().as_str(), "AUTH.KEY_UNAVAILABLE"),
        other => panic!("refused, got {other:?}"),
    }
    let (run, _) = connect(&core, session(1), device(1), None);
    let (run, _) = connect_step(&mut core, run, ConnectEvent::Gathered(round()));
    let (_, action) = connect_step(&mut core, run, ConnectEvent::Identity(true));
    match action {
        ConnectAction::Done(Err(d)) => assert_eq!(d.code().as_str(), "AUTH.PEER_UNTRUSTED"),
        other => panic!("refused, got {other:?}"),
    }
    assert_eq!(core.state_of(session(1)), None);
    assert!(core.next_event().is_none());
}

#[test]
fn a_second_connect_gathers_nothing() {
    let mut core = instance();
    let _ = connected_to(&mut core, 1);
    let (run, action) = connect(&core, session(1), device(1), None);
    assert!(matches!(action, ConnectAction::Identify));
    assert!(run.usable_candidate && !run.no_candidate_either_family);
    assert!(reconnect(&core, session(1), device(1), None).is_ok());
    let unknown = reconnect(&core, session(2), device(2), None)
        .err()
        .expect("unknown");
    assert_eq!(unknown.code().as_str(), "NET.SESSION_CLOSED_BY_USER");
}

#[test]
fn a_session_closed_while_it_was_established_is_a_refusal() {
    let mut core = instance();
    let run = connected_to(&mut core, 1);
    let _ = core.sessions.take(session(1));
    let (_, action) = connect_step(&mut core, run, ConnectEvent::Carried(0));
    match action {
        ConnectAction::Done(Err(d)) => {
            assert_eq!(d.code().as_str(), "NET.SESSION_CLOSED_BY_USER");
        }
        other => panic!("refused, got {other:?}"),
    }
}

#[test]
fn a_session_without_key_material_fails_its_negotiation() {
    let mut core = instance();
    let _ = connected_to(&mut core, 1);
    let (_, action) = carry(&core, session(1), None);
    match action {
        CarryAction::Apply { event, guards, .. } => {
            assert_eq!(event, Event::NegotiationFail);
            assert!(guards.retry_budget_available);
        }
        other => panic!("told, got {other:?}"),
    }
}

#[test]
fn neither_path_is_a_failure_that_names_both_refusals() {
    let mut core = instance();
    let _ = connected_to(&mut core, 1);
    core.install_tunnel_keying(session(1), device(1), keying());
    let (run, _) = carry(&core, session(1), None);
    let negotiated = moved(
        session(1),
        SessionState::Negotiating,
        SessionState::Connecting,
    );
    let (run, _) = carry_step(&mut core, run, CarryEvent::Applied(negotiated));
    let (run, action) =
        carry_step(&mut core, run, CarryEvent::Handshaken(Err(Refusal::NoResponse)));
    assert!(matches!(action, CarryAction::OpenRelay));
    let none = match open_relay(&core, session(1)) {
        RelayStep::Done(Err(d)) => d,
        other => panic!("refused, got {other:?}"),
    };
    assert_eq!(none.code().as_str(), "RELAY.NONE_REACHABLE");
    let _ = drained(&mut core);
    let (run, action) = carry_step(&mut core, run, CarryEvent::Relayed(Err(none)));
    match action {
        CarryAction::Apply {
            event,
            transport_code,
            ..
        } => {
            assert_eq!(event, Event::HandshakeFail);
            assert_eq!(transport_code, Some(ReasonCode::CryptoNoResponse));
        }
        other => panic!("told, got {other:?}"),
    }
    let told = drained(&mut core);
    assert_eq!(
        told,
        vec![
            CoreEventKind::Diagnostic(Diagnostic::new(
                ReasonCode::CryptoNoResponse,
                Component::TunnelEngine
            )),
            CoreEventKind::Diagnostic(none),
        ]
    );
    let held = core.sessions.get(session(1)).expect("known");
    assert!(held.keying.is_some());
    let failed = Applied {
        report: report(SessionState::Failed),
        record: None,
    };
    assert!(matches!(
        carry_step(&mut core, run, CarryEvent::Applied(failed)).1,
        CarryAction::Done(3)
    ));
}

#[test]
fn a_leg_without_a_tunnel_is_no_session() {
    let mut core = instance();
    let _ = connected_to(&mut core, 1);
    core.install_relay_access(session(1), device(1));
    assert!(matches!(open_relay(&core, session(1)), RelayStep::Open));
    assert!(matches!(leg_opened(Ok(())), RelayStep::Bind));
    assert!(leg_bound(&mut core, session(1), BindOutcome::Pending).is_ok());
    assert!(matches!(
        open_relay(&core, session(1)),
        RelayStep::Done(Ok(()))
    ));
    let (run, _) = carry(&core, session(1), None);
    let connecting = moved(
        session(1),
        SessionState::Negotiating,
        SessionState::Connecting,
    );
    let (run, _) = carry_step(&mut core, run, CarryEvent::Applied(connecting));
    let refused = CarryEvent::Handshaken(Err(Refusal::NoKeyMaterial));
    let (run, _) = carry_step(&mut core, run, refused);
    let (_, action) = carry_step(&mut core, run, CarryEvent::Relayed(Ok(())));
    assert!(matches!(
        action,
        CarryAction::Apply {
            event: Event::HandshakeFail,
            transport_code: Some(ReasonCode::AuthKeyUnavailable),
            ..
        }
    ));
}

#[test]
fn a_leg_refusal_keeps_its_code_or_says_that_none_was_reached() {
    assert!(matches!(
        leg_opened(Err(Some(ReasonCode::NetNoRoute))),
        RelayStep::Done(Err(d)) if d.code() == ReasonCode::NetNoRoute
    ));
    assert!(matches!(
        leg_opened(Err(None)),
        RelayStep::Done(Err(d)) if d.code() == ReasonCode::RelayNoneReachable
    ));
    let mut core = instance();
    let err = leg_bound(&mut core, session(1), BindOutcome::Refused(None)).expect_err("refused");
    assert_eq!(err.code().as_str(), "RELAY.NONE_REACHABLE");
    assert!(matches!(
        open_relay(&core, session(1)),
        RelayStep::Done(Err(d)) if d.code() == ReasonCode::NetSessionClosedByUser
    ));
}

#[test]
fn a_pump_starts_once_there_is_an_interface() {
    let mut core = instance();
    let _ = connected_to(&mut core, 1);
    let _ = established(&mut core, 1);
    let id = session(1);
    assert!(matches!(
        start(&mut core, id, Datapath::Userspace, 9),
        StartStep::Done(false)
    ));
    core.enforcement.handle = Some(TunnelHandle(4));
    match start(&mut core, id, Datapath::Userspace, 9) {
        StartStep::Spawn(pump) => assert_eq!(pump.peer_receiver, ReceiverIndex(2)),
        other => panic!("spawned, got {other:?}"),
    }
    let inline = spawn_both(&mut core, id, RuntimeKind::VirtualTime, false, false);
    assert!(!inline.running && !inline.cancel);
    assert!(steps(&core, id));
    let halved = spawn_both(&mut core, id, RuntimeKind::Concurrent, true, false);
    assert!(!halved.running && halved.cancel);
    assert!(!steps(&core, id));
    assert!(matches!(
        start(&mut core, id, Datapath::Userspace, 9),
        StartStep::Done(false)
    ));
    assert_eq!(step(Step::Moved(3), Step::Moved(4)), 7);
    assert_eq!(step(Step::Idle, Step::Moved(4)), 4);
}

#[test]
fn a_pump_that_is_refused_is_reported() {
    let mut core = instance();
    let _ = connected_to(&mut core, 1);
    let _ = established(&mut core, 1);
    core.enforcement.handle = Some(TunnelHandle(4));
    let _ = drained(&mut core);
    assert!(matches!(
        start(&mut core, session(1), Datapath::KernelOffload, 9),
        StartStep::Done(false)
    ));
    assert!(matches!(
        drained(&mut core)[0],
        CoreEventKind::Diagnostic(d) if d.code() == ReasonCode::PlatformOsUnsupported
    ));
}

#[test]
fn a_relayed_record_arrives_at_the_tunnel_it_names() {
    let mut core = instance();
    let _ = connected_to(&mut core, 1);
    let _ = established(&mut core, 1);
    let id = session(1);
    assert_eq!(relay_outbound(&core, id, Some(40)), None);
    assert!(!relay_step(&core));
    core.enforcement.handle = Some(TunnelHandle(4));
    assert!(relay_step(&core));
    assert!(leg_bound(&mut core, id, BindOutcome::Bound).is_ok());
    assert_eq!(relay_outbound(&core, id, Some(40)), Some(ReceiverIndex(2)));
    assert_eq!(relay_outbound(&core, id, Some(0)), None);
    assert_eq!(relay_outbound(&core, id, Some(1281)), None);
    assert_eq!(relay_outbound(&core, id, None), None);
    let frame = relay_frame(ReceiverIndex(1), 7, &[3; 20]);
    assert_eq!(
        DataHeader::parse(&frame).expect("a frame").0.counter,
        7
    );
    assert_eq!(relay_inbound(&core, id, &frame), Some((7, vec![3; 20])));
    let foreign = relay_frame(ReceiverIndex(8), 7, &[3; 20]);
    assert_eq!(relay_inbound(&core, id, &foreign), None);
    assert_eq!(relay_inbound(&core, id, &[0; 4]), None);
    assert_eq!(relay_written(Some(5), true), 5);
    assert_eq!(relay_written(Some(5), false), 0);
    assert_eq!(relay_written(None, true), 0);
}

#[test]
fn a_refused_send_is_observed_as_the_legs_and_drops_it_only_without_another() {
    let mut core = instance();
    let _ = connected_to(&mut core, 1);
    let id = session(1);
    assert_eq!(relay_sent(40, true), Ok(40));
    let seen = relay_sent(40, false).expect_err("an observation");
    assert!(seen.leg_hard_signal && !seen.half_flow_silent);
    assert!(leg_bound(&mut core, id, BindOutcome::Bound).is_ok());
    observe(&mut core, id, Failover::NoMove, None);
    assert!(core.sessions.get(id).expect("known").relay);
    let _ = drained(&mut core);
    observe(
        &mut core,
        id,
        Failover::NeedsSelection,
        Some(ReasonCode::RelayNoneReachable),
    );
    assert!(!core.sessions.get(id).expect("known").relay);
    assert_eq!(drained(&mut core).len(), 1);
}

#[test]
fn a_closed_session_is_torn_down_told_and_forgotten() {
    let mut core = instance();
    let run = connected_to(&mut core, 1);
    let effects = established(&mut core, 1);
    let _ = connect_step(&mut core, run, ConnectEvent::Carried(effects));
    assert!(close_one(&mut core, session(1)));
    assert!(!core.sessions.get(session(1)).expect("known").is_carrying());
    let gone = moved(
        session(1),
        SessionState::Steady(PathClass::WanDirect),
        SessionState::Disconnected,
    );
    assert_eq!(closed(&mut core, session(1), gone, None), 2);
    assert!(core.journal.is_empty());
    assert!(!close_one(&mut core, session(2)));
    let still = Applied {
        report: report(SessionState::Disconnected),
        record: None,
    };
    assert_eq!(closed(&mut core, session(1), still, None), 0);
}

#[test]
fn taking_the_network_down_closes_everything_and_keeps_the_rules() {
    let mut core = instance();
    let _ = connected_to(&mut core, 1);
    let _ = established(&mut core, 1);
    let _ = connected_to(&mut core, 2);
    core.enforcement.handle = Some(TunnelHandle(4));
    let (stage, action) = net_down(&mut core, None);
    match action {
        DownAction::Apply { session_id, event } => {
            assert_eq!(session_id, session(1));
            assert_eq!(event, Event::DisconnectRequested);
        }
        other => panic!("told, got {other:?}"),
    }
    let gone = moved(
        session(1),
        SessionState::Negotiating,
        SessionState::Disconnected,
    );
    let (stage, action) = net_down_step(&mut core, stage, DownEvent::Applied(gone));
    assert!(matches!(action, DownAction::Apply { .. }));
    let (stage, action) = net_down_step(&mut core, stage, DownEvent::Applied(gone));
    match action {
        DownAction::Stop(stopped) => assert!(stopped.is_empty()),
        other => panic!("stops, got {other:?}"),
    }
    let (stage, action) = net_down_step(&mut core, stage, DownEvent::Stopped);
    assert!(matches!(
        action,
        DownAction::Tear(TeardownAction::LinkDown(TunnelHandle(4)))
    ));
    let (stage, action) = net_down_step(&mut core, stage, DownEvent::Did(Ok(())));
    assert!(matches!(action, DownAction::Tear(TeardownAction::Deny { .. })));
    let (stage, action) = net_down_step(&mut core, stage, DownEvent::Did(Ok(())));
    assert!(matches!(action, DownAction::Tear(TeardownAction::Destroy(_))));
    let (_, action) = net_down_step(&mut core, stage, DownEvent::Did(Ok(())));
    assert!(matches!(action, DownAction::Done(6)));
    assert_eq!(core.enforcement.desired(), Ruleset::Blocked);
    assert!(!core.enforcement.has_interface());
}

#[test]
fn a_lifecycle_phase_is_kept_and_told() {
    let mut core = instance();
    let _ = connected_to(&mut core, 1);
    let selector = twinvpn_core::dispatch::Lifecycle::Suspend.to_params();
    let (run, action) = host_lifecycle(&mut core, &[selector], None).expect("a phase");
    assert!(matches!(
        action,
        SweepAction::Apply {
            event: Event::Suspend,
            ..
        }
    ));
    let parked = moved(
        session(1),
        SessionState::Negotiating,
        SessionState::Reconnecting { parked: true },
    );
    let (_, action) = sweep_step(&mut core, run, parked);
    assert!(matches!(action, SweepAction::Done(2)));
    let err = host_lifecycle(&mut core, &[9], None).expect_err("no phase");
    assert_eq!(err.code().as_str(), "PROTO.MALFORMED_MESSAGE");
}

#[test]
fn a_refused_enumeration_is_not_a_lost_link() {
    let mut core = instance();
    let _ = connected_to(&mut core, 1);
    assert!(host_network_changed(&mut core, &None, None).is_none());
    let (_, action) =
        host_network_changed(&mut core, &Some(Vec::new()), None).expect("facts");
    assert!(matches!(
        action,
        SweepAction::Apply {
            event: Event::LinkDown,
            ..
        }
    ));
    let up = InterfaceFacts {
        addresses: Vec::new(),
        is_overlay: false,
        is_up: true,
        mtu: 1500,
    };
    let (_, action) =
        host_network_changed(&mut core, &Some(vec![up]), None).expect("facts");
    assert!(matches!(
        action,
        SweepAction::Apply {
            event: Event::LinkUp,
            ..
        }
    ));
}

#[test]
fn bringing_the_network_up_connects_arms_and_starts() {
    let mut core = instance();
    let _ = connected_to(&mut core, 1);
    let _ = established(&mut core, 1);
    let (run, action) = net_up(&core);
    match action {
        UpAction::Connect(known) => assert_eq!(known.peer, device(1)),
        other => panic!("connects, got {other:?}"),
    }
    let (run, action) = net_up_step(&core, run, UpEvent::Connected(Ok(3)));
    assert!(matches!(action, UpAction::Arm));
    let (run, action) = net_up_step(&core, run, UpEvent::Armed(Ok(())));
    assert!(matches!(action, UpAction::Start(id) if id == session(1)));
    let (_, action) = net_up_step(&core, run, UpEvent::Started(true));
    assert!(matches!(action, UpAction::Done(Ok(5))));
}

#[test]
fn a_refusal_to_arm_is_the_outcome() {
    let core = instance();
    let (run, action) = net_up(&core);
    assert!(matches!(action, UpAction::Arm));
    let refused = Diagnostic::new(ReasonCode::AuthPeerUntrusted, Component::KillSwitch);
    let (_, action) = net_up_step(&core, run, UpEvent::Armed(Err(refused)));
    assert!(matches!(action, UpAction::Done(Err(d)) if d == refused));
}

#[test]
fn a_session_is_reported_with_its_families() {
    let mut core = instance();
    let _ = connected_to(&mut core, 1);
    assert_eq!(
        session_get(&core, session(1)),
        Ok(SessionEvent::CandidateUpdated {
            session_id: session(1),
            state: SessionState::Negotiating,
            single_family: true,
        })
    );
    let err = session_get(&core, session(2)).expect_err("unknown");
    assert_eq!(err.code().as_str(), "NET.SESSION_CLOSED_BY_USER");
}

#[test]
fn a_sample_explains_every_bad_state() {
    let mut core = instance();
    let _ = connected_to(&mut core, 1);
    let parts = contributions(&core);
    assert_eq!(parts.len(), 1);
    assert_eq!(parts[0].state, SessionState::Negotiating);
    assert!(parts[0].in_protected_scope && !parts[0].has_usable_path);
    for (state, code) in [
        (ConnectionState::Blocked, "POLICY.KILLSWITCH_ENGAGED"),
        (ConnectionState::Failed, "NET.NO_ROUTE"),
        (ConnectionState::Degraded, "NET.QOS_DEGRADED_TIMEOUT"),
        (ConnectionState::Reconnecting, "NET.NO_USABLE_CANDIDATES"),
    ] {
        let sample = status_sample(&core, Aggregate { state, reason: None });
        assert_eq!(sample.reason_codes, vec![code]);
    }
    assert_eq!(default_reason_for(ConnectionState::Connected), None);
    let told = Aggregate {
        state: ConnectionState::Failed,
        reason: Some(ReasonCode::AuthPeerUntrusted),
    };
    let sample = status_sample(&core, told);
    assert_eq!(sample.reason_codes, vec!["AUTH.PEER_UNTRUSTED"]);
    assert_eq!(sample.per_session.len(), 1);
    assert_eq!(sample.per_session[0].session_id, session(1));
    assert_eq!(sample.agent_version, "0.1.0");
    assert_eq!(sample.proto_version, 1);
}

#[test]
fn a_tick_tells_the_timers_before_it_probes() {
    let mut core = instance();
    let _ = connected_to(&mut core, 1);
    let _ = drained(&mut core);
    let fired = TransitionRecord {
        session_id: session(1),
        from: SessionState::Negotiating,
        to: SessionState::Failed,
        reason: None,
    };
    let (t, action) = core.tick();
    assert!(matches!(action, TickAction::RunTimers(id) if id == session(1)));
    let timed = TickEvent::Timed {
        records: vec![fired],
        machine: report(SessionState::Failed),
    };
    let (_, action) = core.tick_step(t, timed);
    assert!(matches!(
        action,
        TickAction::Done {
            transitions: 1,
            probes: 0
        }
    ));
    assert_eq!(drained(&mut core), vec![CoreEventKind::Transition(fired)]);
    assert_eq!(core.state_of(session(1)), Some(SessionState::Failed));
    core.set_peer_endpoint(
        session(1),
        device(1),
        twinvpn_core::types::Endpoint {
            address: IpAddr::V4(V4Addr::from_slice(&[192, 0, 2, 1]).expect("v4")),
            port: Port::new(9).expect("port"),
        },
    );
    let (t, _) = core.tick();
    let timed = TickEvent::Timed {
        records: Vec::new(),
        machine: report(SessionState::Failed),
    };
    let (t, action) = core.tick_step(t, timed);
    assert!(matches!(action, TickAction::Probe(id) if id == session(1)));
    let due = round().gathered.candidates;
    let (at, probes, _) = core.probes_due(session(1), &due).expect("a plan");
    assert_eq!((at, probes.len()), (0, 1));
    assert_eq!(core.probe_sent(session(1), probes[0].id, true), 1);
    assert_eq!(core.probe_sent(session(2), probes[0].id, true), 0);
    assert!(core.probes_due(session(2), &due).is_none());
    let (_, action) = core.tick_step(t, TickEvent::Probed(1));
    assert!(matches!(
        action,
        TickAction::Done {
            transitions: 0,
            probes: 1
        }
    ));
}

#[test]
fn a_tick_moves_packets_last_and_only_where_a_tunnel_carries() {
    let mut core = instance();
    let _ = connected_to(&mut core, 1);
    let _ = established(&mut core, 1);
    let _ = connected_to(&mut core, 2);
    let (mut t, mut action) = core.tick();
    for byte in [1, 2] {
        assert!(matches!(action, TickAction::RunTimers(id) if id == session(byte)));
        let timed = TickEvent::Timed {
            records: Vec::new(),
            machine: report(SessionState::Connecting),
        };
        (t, action) = core.tick_step(t, timed);
    }
    assert!(matches!(action, TickAction::MovePackets(id) if id == session(1)));
    let (_, action) = core.tick_step(t, TickEvent::Moved);
    assert!(matches!(action, TickAction::Done { .. }));
}
