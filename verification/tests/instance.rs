use twinvpn_core::build_identity::BuildStamp;
use twinvpn_core::bridge::CommitOutcome;
use twinvpn_core::cp_binding::transport::{AttachFamilies, ControlTransportBinding};
use twinvpn_core::dispatch::{CoreCommand, Lifecycle, Outcome, Submission};
use twinvpn_core::enforce::Ruleset;
use twinvpn_core::events::CoreEventKind;
use twinvpn_core::execute::connect::{connect, connect_step, ConnectAction, ConnectEvent};
use twinvpn_core::execute::{execute, named_peer, Execution};
use twinvpn_core::establish::{FamilyOutcome, Gathered, Round};
use twinvpn_core::instance::{CatalogueEntry, Core, CoreParts, Idempotency, LedgerRecord, VaultState};
use twinvpn_core::lite::Profile;
use twinvpn_core::pairing::{Offer, OfferLimits, PairingEnrolment};
use twinvpn_core::planes::PeerRecord;
use twinvpn_core::reason::{Diagnostic, ReasonCode};
use twinvpn_core::journal::{encode, JournalError};
use twinvpn_core::session::{DurableSession, PathClass, SessionState};
use twinvpn_core::session_table::{Applied, Keying, MachineReport};
use twinvpn_core::types::{
    DeviceId, Endpoint, IpAddr, OverlayAddresses, Port, SessionId, TwinnetId, V4Addr, V6Addr,
};
use twinvpn_core::upkeep::TickAction;
use twinvpn_core::vault::{ShutdownAction, StoreOpened};
use twinvpn_core::{ABI_MAJOR, ABI_MINOR};

fn parts() -> CoreParts {
    CoreParts {
        abi_major_expected: ABI_MAJOR,
        abi_major: ABI_MAJOR,
        abi_minor: ABI_MINOR,
        schema_digest: vec![0xab; 32],
        crypto_provider: "mock".to_owned(),
        sek_custody: "core-held:mlock".to_owned(),
        hardware_backed: false,
        adapter_binding: "mock-in-memory",
        stamp: BuildStamp {
            target_triple: "unknown",
            source_commit: "",
            reason_registry_version: 2,
        },
        profile: Profile::Full,
        event_capacity: 64,
        instance_id: 1,
    }
}

fn instance() -> Core {
    created(parts()).expect("creates")
}

fn created(parts: CoreParts) -> Result<Core, Diagnostic> {
    Core::create(parts)
}

fn entry(name: &'static str, mutating: bool, idempotency: Idempotency) -> CatalogueEntry {
    CatalogueEntry {
        name,
        mutating,
        idempotency,
    }
}

fn opens(core: &mut Core, opened: StoreOpened) -> Vec<DurableSession> {
    core.open_store(Ok(opened), &Vec::new(), &Vec::new(), &Vec::new())
        .expect("opens")
}

fn status_get() -> CatalogueEntry {
    entry("status.get", false, Idempotency::Natural)
}

fn run_status(core: &mut Core, submission: &Submission) {
    core.submit(submission, status_get())
        .expect("status.get is implemented");
    assert!(matches!(execute(core, submission), Execution::Sample));
    core.complete(submission, status_get(), Ok(Outcome::read(vec![1])))
        .expect("a read completes");
}

fn device(byte: u8) -> DeviceId {
    DeviceId::from_slice(&[byte; 32]).expect("32")
}

fn session(byte: u8) -> SessionId {
    SessionId::from_slice(&[byte; 16]).expect("16")
}

fn authorize(core: &mut Core, peer: DeviceId) {
    let record = PeerRecord {
        device_id: peer,
        generation: 1,
        tk_generation: 1,
        tunnel_key_binding_verified: true,
        endpoints: Vec::new(),
        overlay: OverlayAddresses {
            v4: V4Addr::from_slice(&[100, 64, 0, 1]).expect("v4"),
            v6: V6Addr::from_slice(&[0xfd; 16], 0).expect("v6"),
        },
    };
    core.control_plane_port()
        .put_peer(&TwinnetId::new("tn"), record);
}

#[test]
fn an_abi_mismatch_is_refused_by_name_before_anything_is_touched() {
    let mut wrong = parts();
    wrong.abi_major_expected = 99;
    let err = match created(wrong) {
        Ok(_) => panic!("must refuse"),
        Err(err) => err,
    };
    assert_eq!(err.code().as_str(), "INTERNAL.ABI_VERSION_MISMATCH");
}

#[test]
fn a_matching_abi_creates_an_instance_that_reports_s46() {
    let core = instance();
    assert_eq!(core.build_identity().abi_major, ABI_MAJOR);
    assert_eq!(core.build_identity().adapter_binding, "mock-in-memory");
    assert!(core.instance_id() >= 1);
}

#[test]
fn a_poisoned_instance_refuses_every_subsequent_call() {
    let mut core = instance();
    assert!(!core.is_poisoned());
    core.poison();
    assert!(core.is_poisoned());
    let err = core
        .submit(&Submission::bare(CoreCommand::StatusGet), status_get())
        .expect_err("poisoned");
    assert_eq!(err.code().as_str(), "INTERNAL.CORE_PANIC");
}

#[test]
fn poisoning_does_not_touch_the_installed_ruleset() {
    let mut core = instance();
    let before = *core.enforcement();
    core.poison();
    assert_eq!(
        *core.enforcement(),
        before,
        "poisoning must not destroy the interface"
    );
}

#[test]
fn a_rejected_command_produces_an_event_never_a_silent_drop() {
    let mut core = instance();
    let _ = core.submit(
        &Submission::bare(CoreCommand::PairBegin),
        entry("pair.begin", true, Idempotency::Key),
    );
    let event = core.next_event().expect("a rejection must be observable");
    assert!(matches!(event.kind, CoreEventKind::CommandRejected { .. }));
}

#[test]
fn a_key_idempotent_operation_without_a_key_is_refused() {
    let mut core = instance();
    let err = core
        .submit(
            &Submission::bare(CoreCommand::DiagBundleCreate),
            entry("diag.bundle.create", true, Idempotency::Key),
        )
        .expect_err("a CEREMONY key is required");
    assert_eq!(err.code().as_str(), "MGMT.PRECONDITION_FAILED");
}

#[test]
fn a_version_idempotent_operation_without_a_version_is_refused() {
    let mut core = instance();
    let err = core
        .submit(
            &Submission::bare(CoreCommand::SettingsSet),
            entry("settings.set", true, Idempotency::Version),
        )
        .expect_err("a version is required");
    assert_eq!(err.code().as_str(), "MGMT.PRECONDITION_FAILED");
}

#[test]
fn a_completed_command_arrives_on_the_one_ordered_stream() {
    let mut core = instance();
    run_status(&mut core, &Submission::bare(CoreCommand::StatusGet));
    let event = core.next_event().expect("an event");
    assert!(matches!(
        event.kind,
        CoreEventKind::CommandCompleted {
            op: "status.get",
            ..
        }
    ));
}

fn answered(state: SessionState) -> Applied {
    Applied {
        report: MachineReport {
            state,
            reason: None,
            carrier: None,
            has_path: false,
        },
        record: None,
    }
}

#[test]
fn a_mutating_command_advances_the_s47_generation() {
    let mut core = instance();
    let peer = device(0x11);
    authorize(&mut core, peer);
    let before = core.generation();
    let mut submission = Submission::bare(CoreCommand::SessionConnect);
    submission.params = vec![0x11; 32];
    let connects = entry("session.connect", true, Idempotency::Natural);
    core.submit(&submission, connects).expect("is let in");
    assert!(matches!(execute(&core, &submission), Execution::Connect));
    let (run, action) = connect(&core, session(1), peer, None);
    assert!(matches!(action, ConnectAction::Gather));
    let round = Round {
        gathered: Gathered {
            candidates: Vec::new(),
            v4: FamilyOutcome::NoAddress,
            v6: FamilyOutcome::NoAddress,
        },
        sockets: Vec::new(),
    };
    let (run, _) = connect_step(&mut core, run, ConnectEvent::Gathered(round));
    let (run, _) = connect_step(&mut core, run, ConnectEvent::Identity(true));
    let told = ConnectEvent::Applied(answered(SessionState::Discovering));
    let (run, _) = connect_step(&mut core, run, told);
    let (run, _) = connect_step(&mut core, run, ConnectEvent::Now(1));
    let (run, _) = connect_step(&mut core, run, ConnectEvent::Raced);
    let told = ConnectEvent::Applied(answered(SessionState::Failed));
    let (run, action) = connect_step(&mut core, run, told);
    assert!(matches!(action, ConnectAction::Probe));
    let (run, _) = connect_step(&mut core, run, ConnectEvent::Probed(0));
    let (_, action) = connect_step(&mut core, run, ConnectEvent::Carried(0));
    let effects = match action {
        ConnectAction::Done(Ok(effects)) => effects,
        other => panic!("session.connect executes, got {other:?}"),
    };
    core.complete(&submission, connects, Ok(Outcome::new(Vec::new(), effects)))
        .expect("session.connect executes");
    assert_eq!(core.generation(), before + 1);
    run_status(&mut core, &Submission::bare(CoreCommand::StatusGet));
    assert_eq!(core.generation(), before + 1, "a read must not advance it");
}

#[test]
fn a_core_with_no_vault_says_so_rather_than_answering_from_memory() {
    let core = instance();
    assert_eq!(core.vault_state(), VaultState::Absent);
}

#[test]
fn flushing_without_a_vault_is_refused_not_a_silent_success() {
    let mut core = instance();
    let err = core.flush().expect_err("nowhere to flush to");
    assert_eq!(err.code().as_str(), "STORE.CUSTODY_DEGRADED");
}

#[test]
fn mi_18_attribution_reaches_the_event() {
    let mut core = instance();
    let mut submission = Submission::bare(CoreCommand::StatusGet);
    submission.actor_principal = Some("dana".to_owned());
    run_status(&mut core, &submission);
    let event = core.next_event().expect("an event");
    assert_eq!(event.actor_principal.as_deref(), Some("dana"));
}

#[test]
fn shutdown_closes_the_stream_without_removing_enforcement() {
    let mut core = instance();
    let before = *core.enforcement();
    assert!(core.begin_shutdown().is_empty());
    assert!(core.next_event().is_none());
    assert_eq!(*core.enforcement(), before);
    assert_eq!(core.enforcement().desired(), Ruleset::Blocked);
}

#[test]
fn an_operation_that_did_nothing_is_a_defect_not_a_success() {
    let mut core = instance();
    let submission = Submission::bare(CoreCommand::StatusGet);
    let err = core
        .complete(&submission, status_get(), Ok(Outcome::new(Vec::new(), 0)))
        .expect_err("no effect");
    assert_eq!(err.code().as_str(), "INTERNAL.INVARIANT_VIOLATED");
    assert!(core.next_event().is_none());
    assert_eq!(core.take_records().len(), 1);
    assert!(core.take_records().is_empty());
}

#[test]
fn a_failed_execution_is_told_and_recorded() {
    let mut core = instance();
    let submission = Submission::bare(CoreCommand::StatusGet);
    let failure = Diagnostic::new(
        ReasonCode::NetNoRoute,
        twinvpn_core::reason::Component::RoutingEngine,
    );
    assert_eq!(
        core.complete(&submission, status_get(), Err(failure)),
        Err(failure)
    );
    let event = core.next_event().expect("told");
    assert_eq!(
        event.kind,
        CoreEventKind::CommandRejected {
            op: "status.get",
            diagnostic: failure
        }
    );
    assert_eq!(core.take_records(), vec![LedgerRecord::Diagnostic(failure)]);
}

#[test]
fn an_operation_that_is_not_wired_is_refused_with_its_own_code() {
    let mut core = instance();
    let err = core
        .submit(
            &Submission::bare(CoreCommand::PeerList),
            entry("peer.list", false, Idempotency::Natural),
        )
        .expect_err("not wired");
    let told = core.next_event().expect("told");
    assert_eq!(
        told.kind,
        CoreEventKind::CommandRejected {
            op: "peer.list",
            diagnostic: err
        }
    );
}

#[test]
fn the_lite_profile_refuses_every_command() {
    let mut lite = parts();
    lite.profile = Profile::CoreLite;
    let mut core = created(lite).expect("creates");
    let err = core
        .submit(&Submission::bare(CoreCommand::StatusGet), status_get())
        .expect_err("core-lite performs nothing");
    assert_eq!(err.code().as_str(), "PLATFORM.ADAPTER_UNAVAILABLE");
}

#[test]
fn what_only_the_caller_is_told_never_reaches_the_stream() {
    let mut core = instance();
    let submission = Submission::bare(CoreCommand::PairBegin);
    let outcome = Outcome::new(vec![1], 1).responding(Some(vec![9]));
    let told = core.complete(
        &submission,
        entry("pair.begin", true, Idempotency::Key),
        Ok(outcome),
    );
    assert_eq!(told, Ok(Some(vec![9])));
    let event = core.next_event().expect("an event");
    assert_eq!(
        event.kind,
        CoreEventKind::CommandCompleted {
            op: "pair.begin",
            result: vec![1]
        }
    );
}

#[test]
fn a_store_is_opened_flushed_and_closed() {
    let mut core = instance();
    let refused = core
        .open_store(
            Err(ReasonCode::Registered("STORE.LOCK_CONTENDED")),
            &Vec::new(),
            &Vec::new(),
            &Vec::new(),
        )
        .expect_err("refused");
    assert_eq!(refused.code().as_str(), "STORE.LOCK_CONTENDED");
    let opened = StoreOpened {
        store_seq: 5,
        suspend_granted_authority: true,
    };
    assert!(opens(&mut core, opened).is_empty());
    assert_eq!(core.vault_state(), VaultState::Open);
    assert!(matches!(
        core.next_event().expect("told").kind,
        CoreEventKind::Diagnostic(d) if d.code() == ReasonCode::StoreCustodyDegraded
    ));
    assert!(opens(&mut core, opened).is_empty());
    assert!(core.next_event().is_none());
    authorize(&mut core, device(1));
    let plan = core.flush().expect("a vault").expect("one write");
    assert_eq!(
        core.flushed(&plan, CommitOutcome::Committed, ReasonCode::StoreCustodyDegraded),
        Ok(1)
    );
    assert!(core.flush().expect("a vault").is_none());
    let ended = match core.shutdown() {
        ShutdownAction::Stop(ended) => ended,
        other => panic!("nothing is queued, got {other:?}"),
    };
    assert!(ended.close && ended.stopped.is_empty());
    assert_eq!(ended.flushed, Ok(0));
    assert_eq!(core.vault_state(), VaultState::Absent);
}

#[test]
fn a_commit_that_fails_keeps_the_queue_and_the_vault() {
    let mut core = instance();
    let opened = StoreOpened {
        store_seq: 0,
        suspend_granted_authority: false,
    };
    let _ = opens(&mut core, opened);
    authorize(&mut core, device(1));
    let plan = core.flush().expect("a vault").expect("one write");
    let err = core
        .flushed(
            &plan,
            CommitOutcome::Failed,
            ReasonCode::Registered("STORE.IO_FAILED"),
        )
        .expect_err("failed");
    assert_eq!(err.code().as_str(), "STORE.IO_FAILED");
    assert_eq!(core.vault_state(), VaultState::Open);
    assert!(core.flush().expect("still open").is_some());
}

#[test]
fn a_known_session_is_not_resumed_over() {
    let mut core = instance();
    let record = DurableSession {
        session_id: session(1),
        peer: device(1),
        last_state: SessionState::Failed,
        last_reason: None,
    };
    let machine = MachineReport {
        state: record.resume_state(),
        reason: None,
        carrier: None,
        has_path: false,
    };
    core.resume(&record, machine);
    assert_eq!(
        core.state_of(session(1)),
        Some(SessionState::Reconnecting { parked: false })
    );
    let other = MachineReport {
        state: SessionState::Connecting,
        ..machine
    };
    core.resume(&record, other);
    assert_eq!(
        core.state_of(session(1)),
        Some(SessionState::Reconnecting { parked: false })
    );
    let (_, action) = core.tick();
    assert!(matches!(action, TickAction::RunTimers(id) if id == session(1)));
}

#[test]
fn what_is_installed_creates_the_session() {
    let mut core = instance();
    let endpoint = Endpoint {
        address: IpAddr::V4(V4Addr::from_slice(&[192, 0, 2, 1]).expect("v4")),
        port: Port::new(9).expect("port"),
    };
    core.set_peer_endpoint(session(1), device(1), endpoint);
    core.install_relay_access(session(1), device(1));
    core.install_tunnel_keying(
        session(1),
        device(1),
        Keying {
            twinnet: TwinnetId::new("tn"),
            local_device: device(2),
        },
    );
    let held = core.sessions.get(session(1)).expect("created");
    assert_eq!(held.peer_endpoint, Some(endpoint));
    assert!(held.relay_access);
    assert!(held.keying.is_some());
    assert!(!core.any_session_connected());
}

#[test]
fn a_control_channel_needs_a_transport() {
    let mut core = instance();
    assert!(!core.has_control_transport());
    let err = core.attach_control(false).expect_err("nothing bound");
    assert_eq!(err.code().as_str(), "CONTROL.UNREACHABLE");
    let families = AttachFamilies {
        v4: true,
        v6: true,
        nat64: false,
    };
    core.bind_control_transport(ControlTransportBinding::over(
        vec!["cp.test.invalid".to_owned()],
        families,
    ));
    assert!(core.has_control_transport());
    let config = core.attach_control(true).expect("bound");
    assert_eq!(config.coordination_endpoints, vec!["cp.test.invalid"]);
    assert!(config.mobile_background);
}

#[test]
fn an_answer_that_needs_no_work_is_given_at_once() {
    let core = instance();
    let lifecycle = Submission::bare(CoreCommand::LifecycleGet);
    assert_eq!(
        execute(&core, &lifecycle),
        Execution::Answered(vec![Lifecycle::Foreground.to_params()])
    );
    let subscribe = Submission::bare(CoreCommand::EventSubscribe);
    assert_eq!(
        execute(&core, &subscribe),
        Execution::Answered(1u64.to_be_bytes().to_vec())
    );
    let gateway = Submission::bare(CoreCommand::GatewayGet);
    match execute(&core, &gateway) {
        Execution::Answered(body) => assert_eq!(body[24], 0),
        other => panic!("answered, got {other:?}"),
    }
    match execute(&core, &Submission::bare(CoreCommand::VersionGet)) {
        Execution::Version(wire) => assert_eq!(wire.abi_major, ABI_MAJOR),
        other => panic!("a version, got {other:?}"),
    }
    match execute(&core, &Submission::bare(CoreCommand::DeviceRevoke)) {
        Execution::Refused(d) => {
            assert_eq!(d.code().as_str(), "INTERNAL.INVARIANT_VIOLATED");
        }
        other => panic!("refused, got {other:?}"),
    }
    assert_eq!(core.event_cursor(), 1);
}

#[test]
fn an_offer_is_lent_while_it_is_in_flight() {
    let mut core = instance();
    let limits = OfferLimits {
        max_cose_key_bytes: 64,
        max_hint_bytes: 16,
    };
    let enrolment = match PairingEnrolment::new(
        vec!["osk-1".to_owned()],
        vec![1; 32],
        String::new(),
        limits,
    ) {
        Ok(enrolment) => enrolment,
        Err(d) => panic!("enrols, got {d:?}"),
    };
    core.install_pairing_enrolment(enrolment);
    assert!(core.pairing.enrolment().is_some());
    assert_eq!(
        core.with_pairing_offer(&[2; 16], |offer| offer.not_after_ms),
        None
    );
    core.pairing.offers.insert(
        vec![2; 16],
        Offer {
            octets: Some(vec![7]),
            not_after_ms: 9,
        },
    );
    assert_eq!(
        core.with_pairing_offer(&[2; 16], |offer| offer.not_after_ms),
        Some(9)
    );
}

#[test]
fn a_session_operation_names_its_peer() {
    let mut submission = Submission::bare(CoreCommand::SessionConnect);
    assert_eq!(
        named_peer(&submission).expect_err("names none").code(),
        ReasonCode::ProtoMalformedMessage
    );
    submission.params = vec![3; 32];
    assert_eq!(named_peer(&submission), Ok(device(3)));
}

fn opened() -> StoreOpened {
    StoreOpened {
        store_seq: 0,
        suspend_granted_authority: false,
    }
}

fn known(byte: u8, last_state: SessionState, last_reason: Option<ReasonCode>) -> DurableSession {
    DurableSession {
        session_id: session(byte),
        peer: device(byte),
        last_state,
        last_reason,
    }
}

#[test]
fn a_shutdown_makes_what_is_queued_durable_first() {
    let mut core = instance();
    let _ = opens(&mut core, opened());
    authorize(&mut core, device(1));
    let plan = match core.shutdown() {
        ShutdownAction::Commit(plan) => plan,
        other => panic!("one write is queued, got {other:?}"),
    };
    assert_eq!(plan.count, 1);
    assert_eq!(core.vault_state(), VaultState::Open, "nothing stopped yet");
    let ended = core.shutdown_step(
        &plan,
        CommitOutcome::Committed,
        ReasonCode::StoreCustodyDegraded,
    );
    assert_eq!(ended.flushed, Ok(1));
    assert!(ended.close);
    assert_eq!(core.vault_state(), VaultState::Absent);
    assert!(core.port.shared().pending.is_empty());
}

#[test]
fn a_shutdown_goes_on_where_the_store_fails_and_says_why() {
    let mut core = instance();
    let _ = opens(&mut core, opened());
    authorize(&mut core, device(1));
    let plan = match core.shutdown() {
        ShutdownAction::Commit(plan) => plan,
        other => panic!("one write is queued, got {other:?}"),
    };
    let ended = core.shutdown_step(
        &plan,
        CommitOutcome::Failed,
        ReasonCode::Registered("STORE.IO_FAILED"),
    );
    let why = ended.flushed.expect_err("failed");
    assert_eq!(why.code().as_str(), "STORE.IO_FAILED");
    assert_eq!(core.vault_state(), VaultState::Absent);
    let mut without = instance();
    match without.shutdown() {
        ShutdownAction::Stop(ended) => {
            assert!(!ended.close);
            assert_eq!(ended.flushed, Ok(0));
        }
        other => panic!("no store is open, got {other:?}"),
    }
}

#[test]
fn a_restart_resumes_what_an_earlier_process_left() {
    let left = vec![
        known(
            1,
            SessionState::Steady(PathClass::WanDirect),
            Some(ReasonCode::NetNoRoute),
        ),
        known(2, SessionState::Disconnected, None),
    ];
    let held: Vec<Vec<u8>> = left.iter().map(encode).collect();
    let mut core = instance();
    let restored = core
        .open_store(Ok(opened()), &held, &Vec::new(), &Vec::new())
        .expect("opens");
    assert_eq!(restored, left);
    let wrong = MachineReport {
        state: SessionState::Connecting,
        reason: None,
        carrier: None,
        has_path: false,
    };
    for record in &restored {
        core.resume(record, wrong);
    }
    assert_eq!(
        core.state_of(session(1)),
        Some(SessionState::Reconnecting { parked: false })
    );
    assert_eq!(
        core.state_of(session(2)),
        Some(SessionState::Disconnected)
    );
}

#[test]
fn a_record_that_does_not_decode_adds_nothing() {
    let mut core = instance();
    let held = vec![encode(&known(1, SessionState::Failed, None)), vec![1, 2, 3]];
    assert_eq!(
        core.hydrate(&held, &Vec::new()),
        Err(JournalError::Corrupt)
    );
    assert!(core.journal.is_empty());
    let read = core
        .hydrate(&held[..1].to_vec(), &Vec::new())
        .expect("decodes");
    assert_eq!(read.len(), 1);
    assert_eq!(core.journal.len(), 1);
}

#[test]
fn what_this_process_wrote_is_newer_than_what_the_store_held() {
    let mut core = instance();
    let newer = known(1, SessionState::Blocked, None);
    core.journal.persist(&mut core.port.shared, &newer);
    let held = vec![encode(&known(1, SessionState::Failed, None))];
    let restored = core
        .open_store(Ok(opened()), &held, &Vec::new(), &Vec::new())
        .expect("opens");
    assert_eq!(restored, vec![newer]);
}

#[test]
fn a_session_that_was_forgotten_does_not_come_back() {
    let mut core = instance();
    let gone = known(1, SessionState::Blocked, None);
    let kept = known(2, SessionState::Blocked, None);
    core.journal.persist(&mut core.port.shared, &gone);
    core.journal.forget(&mut core.port.shared, gone.session_id);
    let held = vec![encode(&gone), encode(&kept)];
    let restored = core
        .open_store(Ok(opened()), &held, &Vec::new(), &Vec::new())
        .expect("opens");
    assert_eq!(restored, vec![kept]);
}
