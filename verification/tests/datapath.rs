use twinvpn_core::datapath::cancel::{race, CancelState, Raced};
use twinvpn_core::datapath::frame::{
    Budget, Buffers, DataHeader, ReceiverIndex, DATAGRAM_CEILING, HEADER_BYTES, OVERHEAD_BYTES,
    OVERLAY_MTU_FLOOR, TAG_BYTES, TYPE_TRANSPORT_DATA,
};
use twinvpn_core::datapath::outcome::{
    Counters, Fault, PlatformError, PlatformKind, Refused, Reject, Step, Stop,
};
use twinvpn_core::datapath::{
    Absorbed, Datapath, InAction, InEvent, InStage, OutAction, OutEvent, OutStage, Pump,
    PumpParts, TunnelError,
};
use twinvpn_core::reason::{Evidence, ReasonCode};
use twinvpn_core::types::{Endpoint, IpAddr, Port, V4Addr};

#[test]
fn a_fresh_token_is_pending_and_a_tripped_one_is_ready() {
    let mut token: CancelState<u8> = CancelState::new();
    let slot = token.poll(None, 7);
    assert!(slot.is_some());
    assert_eq!(token.cancel(), vec![7]);
    assert_eq!(token.poll(slot, 7), None);
}

#[test]
fn cancelling_twice_is_idempotent() {
    let mut token: CancelState<u8> = CancelState::new();
    assert!(token.cancel().is_empty());
    assert!(token.cancel().is_empty());
    assert!(token.is_cancelled());
}

#[test]
fn a_dropped_waiter_releases_its_slot() {
    let mut token: CancelState<u8> = CancelState::new();
    for _ in 0..64 {
        let slot = token.poll(None, 0).expect("pending");
        token.release(slot);
    }
    assert_eq!(token.waiters.len(), 1);
}

#[test]
fn a_race_gives_up_a_pending_wait() {
    let mut token: CancelState<u8> = CancelState::new();
    assert_eq!(race::<u8>(token.is_cancelled(), None), None);
    let _ = token.cancel();
    assert_eq!(
        race::<u8>(token.is_cancelled(), None),
        Some(Raced::Cancelled)
    );
}

#[test]
fn a_ready_work_future_still_loses_to_an_already_tripped_token() {
    let mut token: CancelState<u8> = CancelState::new();
    let _ = token.cancel();
    assert_eq!(race(token.is_cancelled(), Some(7)), Some(Raced::Cancelled));
}

#[test]
fn work_that_is_ready_wins_where_nothing_asked_to_stop() {
    assert_eq!(race(false, Some(7)), Some(Raced::Completed(7)));
}

#[test]
fn every_waiter_that_stands_is_woken() {
    let mut token: CancelState<u8> = CancelState::new();
    let first = token.poll(None, 1).expect("pending");
    let _ = token.poll(None, 2);
    token.release(first);
    let _ = token.poll(None, 3);
    let _ = token.poll(None, 4);
    assert_eq!(token.cancel(), vec![3, 2, 4]);
}

#[test]
fn the_overhead_is_the_networking_md_accounting() {
    assert_eq!(HEADER_BYTES, 16);
    assert_eq!(TAG_BYTES, 16);
    assert_eq!(OVERHEAD_BYTES, 32);
    assert_eq!(Budget::new(1420).expect("v6 row").datagram_capacity(), 1452);
}

#[test]
fn a_budget_refuses_below_the_floor_and_above_the_ceiling() {
    assert_eq!(
        Budget::new(OVERLAY_MTU_FLOOR - 1),
        Err(Refused::MtuBelowFloor {
            mtu: OVERLAY_MTU_FLOOR - 1
        })
    );
    assert!(Budget::new(OVERLAY_MTU_FLOOR).is_ok());
    let over = u32::MAX;
    assert_eq!(
        Budget::new(over),
        Err(Refused::MtuAboveCeiling { mtu: over })
    );
    let largest = u32::try_from(DATAGRAM_CEILING - OVERHEAD_BYTES).expect("fits in u32");
    assert!(Budget::new(largest).is_ok());
    assert!(Budget::new(largest + 1).is_err());
}

#[test]
fn a_header_round_trips() {
    let header = DataHeader {
        receiver: ReceiverIndex(0xdead_beef),
        counter: 0x0102_0304_0506_0708,
    };
    let mut out = vec![0xaa; 0];
    header.write(&mut out);
    out.extend_from_slice(&[0u8; TAG_BYTES]);
    let (parsed, record) = DataHeader::parse(&out).expect("parses");
    assert_eq!(parsed, header);
    assert_eq!(record.len(), TAG_BYTES);
    assert_eq!(out[0], TYPE_TRANSPORT_DATA);
}

#[test]
fn a_short_or_foreign_datagram_is_malformed_rather_than_a_panic() {
    for len in 0..HEADER_BYTES + TAG_BYTES {
        let mut datagram = vec![0u8; len];
        if !datagram.is_empty() {
            datagram[0] = TYPE_TRANSPORT_DATA;
        }
        assert_eq!(
            DataHeader::parse(&datagram),
            Err(Reject::Malformed),
            "{len}"
        );
    }
    let mut wrong_type = vec![0u8; HEADER_BYTES + TAG_BYTES];
    wrong_type[0] = 1;
    assert_eq!(DataHeader::parse(&wrong_type), Err(Reject::Malformed));
    let mut reserved_set = vec![0u8; HEADER_BYTES + TAG_BYTES];
    reserved_set[0] = TYPE_TRANSPORT_DATA;
    reserved_set[2] = 1;
    assert_eq!(DataHeader::parse(&reserved_set), Err(Reject::Malformed));
}

fn every_reject() -> Vec<Reject> {
    vec![
        Reject::Malformed,
        Reject::ForeignReceiver,
        Reject::Oversize,
        Reject::Truncated,
        Reject::Unauthenticated,
        Reject::Replay,
    ]
}

#[test]
fn no_reject_tears_down_a_tunnel() {
    for reject in every_reject() {
        assert!(!reject.tears_down(), "{reject:?}");
    }
}

#[test]
fn a_replay_is_a_security_event_with_its_own_code() {
    let code = Reject::Replay.reason_code().expect("replay has a code");
    assert_eq!(code, ReasonCode::CryptoReplayDetected);
    assert!(Reject::Replay.is_security_event());
}

#[test]
fn an_authentication_failure_is_the_one_silent_reject() {
    assert_eq!(Reject::Unauthenticated.reason_code(), None);
    assert!(!Reject::Unauthenticated.is_security_event());
    for reject in every_reject() {
        if reject != Reject::Unauthenticated {
            assert!(reject.reason_code().is_some(), "{reject:?}");
        }
    }
}

#[test]
fn a_size_violation_is_a_proto_reject() {
    for reject in [Reject::Oversize, Reject::Truncated] {
        assert_eq!(reject.reason_code(), Some(ReasonCode::ProtoSizeExceeded));
    }
}

#[test]
fn refusing_a_kernel_offload_adapter_carries_the_adapters_own_code() {
    assert_eq!(
        Refused::KernelOffload.reason_code(),
        ReasonCode::PlatformOsUnsupported
    );
    assert_eq!(
        Refused::MtuBelowFloor { mtu: 1279 }.reason_code(),
        ReasonCode::NetMtuTooSmall
    );
}

#[test]
fn the_ordinary_exits_carry_no_error_code() {
    assert!(Stop::Cancelled.is_graceful());
    assert!(Stop::ShuttingDown.is_graceful());
    assert_eq!(Stop::Cancelled.reason_code(), None);
    assert!(!Stop::RekeyRequired.is_graceful());
    assert_eq!(Stop::RekeyRequired.reason_code(), None);
    assert_eq!(
        Stop::Fault(Fault::TranscriptMismatch).reason_code(),
        Some(ReasonCode::ProtoTranscriptMismatch)
    );
}

#[test]
fn counters_bucket_every_reject() {
    let mut counters = Counters::default();
    for reject in every_reject() {
        counters.record(reject);
    }
    assert_eq!(counters.rejected_total(), every_reject().len() as u64);
    assert_eq!(counters.rejected_replay, 1);
    assert_eq!(counters.rejected_oversize, 2);
}

const RESUME_TYPE: u8 = 9;

fn parts() -> PumpParts {
    PumpParts {
        datapath: Datapath::Userspace,
        local_receiver: ReceiverIndex(1),
        peer_receiver: ReceiverIndex(2),
        overlay_mtu: 1280,
        resume_type: RESUME_TYPE,
    }
}

fn pump() -> Pump {
    Pump::new(parts()).expect("starts")
}

#[test]
fn a_kernel_datapath_is_refused_before_anything_is_asked() {
    let kernel = PumpParts {
        datapath: Datapath::KernelOffload,
        ..parts()
    };
    assert_eq!(Pump::new(kernel).err(), Some(Refused::KernelOffload));
    let small = PumpParts {
        overlay_mtu: 1279,
        ..parts()
    };
    assert_eq!(
        Pump::new(small).err(),
        Some(Refused::MtuBelowFloor { mtu: 1279 })
    );
}

fn received(receiver: ReceiverIndex, counter: u64, record: &[u8]) -> InEvent {
    let mut wire = Vec::new();
    DataHeader { receiver, counter }.write(&mut wire);
    wire.extend_from_slice(record);
    let len = wire.len();
    wire.resize(1280 + 32, 0);
    InEvent::Received {
        len,
        truncated: false,
        wire,
    }
}

#[test]
fn a_frame_for_another_tunnel_is_dropped_and_the_pump_goes_on() {
    let mut pump = pump();
    let event = received(ReceiverIndex(7), 3, &[0; TAG_BYTES]);
    match pump.step_inbound(InStage::Receiving, event) {
        (_, InAction::Done(step)) => {
            assert_eq!(step, Step::Rejected(Reject::ForeignReceiver));
            let mut counters = Counters::default();
            assert_eq!(Pump::absorb(step, &mut counters), Absorbed::Continue);
            assert_eq!(counters.rejected_total(), 1);
        }
        other => panic!("dropped, got {other:?}"),
    }
}

#[test]
fn an_inbound_packet_is_opened_where_it_stands_and_written() {
    let mut pump = pump();
    let (stage, action) = pump.step_inbound(InStage::Start, InEvent::Begin { cancelled: false });
    assert!(matches!(action, InAction::Receive { capacity: 1312 }));
    let (stage, action) = pump.step_inbound(stage, received(ReceiverIndex(1), 3, &[7; 20]));
    assert!(matches!(
        action,
        InAction::Open {
            counter: 3,
            start: 16,
            end: 36
        }
    ));
    let (stage, action) = pump.step_inbound(stage, InEvent::Opened(Ok(4)));
    assert!(matches!(action, InAction::Write { length: 4 }));
    let (_, action) = pump.step_inbound(stage, InEvent::Written(Ok(())));
    assert!(matches!(action, InAction::Done(Step::Moved(4))));
}

#[test]
fn a_replayed_record_is_dropped() {
    let mut pump = pump();
    let (_, action) = pump.step_inbound(InStage::Opening, InEvent::Opened(Err(TunnelError::Replay)));
    assert!(matches!(
        action,
        InAction::Done(Step::Rejected(Reject::Replay))
    ));
}

#[test]
fn a_resume_is_set_aside_once() {
    let mut pump = pump();
    let mut wire = vec![0; 1312];
    wire[0] = RESUME_TYPE;
    let event = InEvent::Received {
        len: 40,
        truncated: false,
        wire,
    };
    let (stage, action) = pump.step_inbound(InStage::Receiving, event);
    assert!(matches!(action, InAction::ReadResume { len: 40 }));
    let read = InEvent::ResumeRead(Some((ReceiverIndex(1), vec![1, 2])));
    let (_, action) = pump.step_inbound(stage, read);
    assert!(matches!(action, InAction::Done(Step::Diverted)));
    assert_eq!(pump.take_resume(), Some(vec![1, 2]));
    assert_eq!(pump.take_resume(), None);
}

#[test]
fn an_outbound_packet_is_sealed_framed_and_sent() {
    let pump = pump();
    let destination = Endpoint {
        address: IpAddr::V4(V4Addr::from_slice(&[192, 0, 2, 1]).expect("v4")),
        port: Port::new(51_820).expect("port"),
    };
    let (stage, action) = pump.step_outbound(OutStage::Start, OutEvent::Begin { cancelled: false });
    assert!(matches!(action, OutAction::Read { capacity: 1280 }));
    let (stage, action) = pump.step_outbound(stage, OutEvent::Read(Ok(4)));
    assert!(matches!(action, OutAction::Seal { length: 4 }));
    let sealed = OutEvent::Sealed {
        destination,
        counter: 5,
        record: vec![9; 20],
    };
    let (stage, action) = pump.step_outbound(stage, sealed);
    match action {
        OutAction::Send { wire, .. } => {
            let (header, record) = DataHeader::parse(&wire).expect("a frame");
            assert_eq!(header.receiver, ReceiverIndex(2));
            assert_eq!(header.counter, 5);
            assert_eq!(record, &[9; 20]);
        }
        other => panic!("sent, got {other:?}"),
    }
    let (_, action) = pump.step_outbound(stage, OutEvent::Sent(Ok(())));
    assert!(matches!(action, OutAction::Done(Step::Moved(4))));
}

#[test]
fn a_request_to_stop_and_a_used_up_counter_end_the_loop() {
    let pump = pump();
    let (_, action) = pump.step_outbound(OutStage::Start, OutEvent::Begin { cancelled: true });
    assert!(matches!(
        action,
        OutAction::Done(Step::Stopped(Stop::Cancelled))
    ));
    let (_, action) = pump.step_outbound(
        OutStage::Sealing(4),
        OutEvent::SealFailed(TunnelError::CounterExhausted),
    );
    assert!(matches!(
        action,
        OutAction::Done(Step::Stopped(Stop::RekeyRequired))
    ));
    let refused = PlatformError {
        kind: PlatformKind::Refused,
        code: ReasonCode::PlatformOsUnsupported,
        evidence: Evidence::Adapter("the adapter said no"),
    };
    let (_, action) = pump.step_outbound(OutStage::Reading, OutEvent::Read(Err(refused)));
    match action {
        OutAction::Done(Step::Stopped(stop)) => {
            assert_eq!(stop, Stop::Fault(Fault::Device(refused)));
            let mut counters = Counters::default();
            assert!(matches!(
                Pump::absorb(Step::Stopped(stop), &mut counters),
                Absorbed::End(_)
            ));
        }
        other => panic!("stopped, got {other:?}"),
    }
}

#[test]
fn buffers_are_as_large_as_the_budget_says() {
    let buffers = pump().buffers();
    assert!(buffers.wire_capacity() >= 1280 + 32);
    assert_eq!(buffers.wire.len(), 1280 + 32);
    assert_eq!(buffers.wire_capacity(), buffers.wire.capacity());
    let own = Buffers::new(Budget::new(1280).expect("fits"));
    assert_eq!(own.budget().plaintext_capacity(), 1280);
}

#[test]
fn an_idle_wait_that_was_given_up_ends_the_loop() {
    let counters = Counters::default();
    assert_eq!(Pump::waited(true, &counters), Absorbed::Continue);
    match Pump::waited(false, &counters) {
        Absorbed::End(report) => assert_eq!(report.stop, Stop::Cancelled),
        other => panic!("ended, got {other:?}"),
    }
    assert_eq!(
        Budget::new(1280).expect("fits").record_capacity(),
        1280 + 16
    );
}

#[test]
fn a_device_fault_keeps_the_adapters_evidence() {
    let refused = PlatformError {
        kind: PlatformKind::Refused,
        code: ReasonCode::PlatformOsUnsupported,
        evidence: Evidence::Adapter("no such device"),
    };
    let told = Fault::Device(refused).diagnostic();
    assert_eq!(told.code(), ReasonCode::PlatformOsUnsupported);
    assert_eq!(told.evidence, Evidence::Adapter("no such device"));
    assert_eq!(Fault::NotEstablished.diagnostic().evidence, Evidence::Nothing);
}
