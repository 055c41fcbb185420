use twinvpn_core::datapath::frame::ReceiverIndex;
use twinvpn_core::datapath::outcome::{PlatformError, PlatformKind};
use twinvpn_core::execute::handshake::{
    deadline_from, encode_initiation, encode_response, ordered, parse_initiation, parse_response,
    receive, role_for, Attempt, Drive, DriveAction, DriveEvent, ReceiveEnd, Refusal, Role,
    INITIATION_PREFIX_BYTES, RESPONSE_PREFIX_BYTES, TYPE_HANDSHAKE_INITIATION,
    TYPE_HANDSHAKE_RESPONSE,
};
use twinvpn_core::reason::{Evidence, ReasonCode};
use twinvpn_core::types::{DeviceId, Endpoint, IpAddr, Port, SessionId, V4Addr};

fn device(byte: u8) -> DeviceId {
    DeviceId::from_slice(&[byte; 32]).expect("32")
}

#[test]
fn the_two_ends_never_agree_on_being_the_same_role() {
    let (low, high) = (device(1), device(9));
    assert_eq!(role_for(low, high), Role::Initiator);
    assert_eq!(role_for(high, low), Role::Responder);
}

#[test]
fn both_ends_order_the_identity_binding_the_same_way() {
    let (low, high) = (device(1), device(9));
    assert_eq!(ordered(low, high), ordered(high, low));
    assert_eq!(ordered(low, high), (low, high));
}

#[test]
fn an_initiation_round_trips_and_a_response_is_not_one() {
    let sender = ReceiverIndex(0xDEAD_BEEF);
    let datagram = encode_initiation(sender, b"noise message one");
    let (parsed, body) = parse_initiation(&datagram).expect("well formed");
    assert_eq!(parsed, sender);
    assert_eq!(body, b"noise message one");
    assert_eq!(parse_response(&datagram).unwrap_err(), Refusal::Malformed);
}

#[test]
fn a_response_carries_both_indices_so_each_end_learns_the_others() {
    let ours = ReceiverIndex(0x0000_1111);
    let theirs = ReceiverIndex(0x0000_2222);
    let datagram = encode_response(ours, theirs, b"noise message two");
    let (sender, receiver, body) = parse_response(&datagram).expect("well formed");
    assert_eq!((sender, receiver), (ours, theirs));
    assert_eq!(body, b"noise message two");
}

#[test]
fn a_body_less_datagram_is_refused_rather_than_read_past() {
    for len in 0..=RESPONSE_PREFIX_BYTES {
        let mut datagram = vec![0u8; len];
        if len > 0 {
            datagram[0] = TYPE_HANDSHAKE_RESPONSE;
        }
        assert_eq!(parse_response(&datagram).unwrap_err(), Refusal::Malformed);
    }
    for len in 0..=INITIATION_PREFIX_BYTES {
        let mut datagram = vec![0u8; len];
        if len > 0 {
            datagram[0] = TYPE_HANDSHAKE_INITIATION;
        }
        assert_eq!(parse_initiation(&datagram).unwrap_err(), Refusal::Malformed);
    }
}

#[test]
fn a_nonzero_reserved_field_is_not_the_message_it_claims_to_be() {
    let mut datagram = encode_initiation(ReceiverIndex(1), b"body");
    datagram[2] = 0x01;
    assert_eq!(parse_initiation(&datagram).unwrap_err(), Refusal::Malformed);
}

#[test]
fn every_refusal_carries_a_registered_code() {
    assert_eq!(
        Refusal::NoKeyMaterial.reason_code().as_str(),
        "AUTH.KEY_UNAVAILABLE"
    );
    assert_eq!(
        Refusal::Rejected.reason_code().as_str(),
        "CRYPTO.HANDSHAKE_REJECTED"
    );
    assert_eq!(
        Refusal::NoResponse.reason_code().as_str(),
        "CRYPTO.NO_RESPONSE"
    );
    assert_eq!(
        Refusal::Malformed.reason_code().as_str(),
        "PROTO.MALFORMED_MESSAGE"
    );
    assert_eq!(
        Refusal::NoEndpoint.reason_code().as_str(),
        "NET.NO_USABLE_CANDIDATES"
    );
}

fn endpoint() -> Endpoint {
    Endpoint {
        address: IpAddr::V4(V4Addr::from_slice(&[192, 0, 2, 1]).expect("v4")),
        port: Port::new(51_820).expect("port"),
    }
}

fn attempt(local: u8, peer: u8) -> Attempt {
    Attempt {
        session: SessionId::from_slice(&[7; 16]).expect("16"),
        local_device: device(local),
        peer: device(peer),
        peer_endpoint: Some(endpoint()),
        keyed: true,
        trust_epoch: 4,
    }
}

#[test]
fn nothing_is_sent_without_key_material_or_an_endpoint() {
    let unkeyed = Attempt {
        keyed: false,
        ..attempt(1, 9)
    };
    assert_eq!(
        Drive::start(unkeyed).err().expect("refused"),
        Refusal::NoKeyMaterial
    );
    let lost = Attempt {
        peer_endpoint: None,
        ..attempt(1, 9)
    };
    assert_eq!(
        Drive::start(lost).err().expect("refused"),
        Refusal::NoEndpoint
    );
}

fn datagram(octets: Vec<u8>) -> DriveEvent {
    let len = octets.len();
    DriveEvent::Received(ReceiveEnd::Datagram {
        len,
        truncated: false,
        buf: octets,
    })
}

#[test]
fn an_initiator_and_a_responder_end_with_each_others_indices() {
    let (initiator, action) = Drive::start(attempt(1, 9)).expect("starts");
    assert!(matches!(
        action,
        DriveAction::Bind {
            role: Role::Initiator,
            trust_epoch: 4,
            ..
        }
    ));
    let (initiator, action) = initiator.drive(DriveEvent::Bound(true));
    assert!(matches!(action, DriveAction::Draw));
    let (initiator, action) = initiator.drive(DriveEvent::Drawn(Some([1, 0, 0, 0])));
    assert!(matches!(action, DriveAction::WriteInitiation));
    let (initiator, action) = initiator.drive(DriveEvent::Written(Some(vec![5; 40])));
    let first = match action {
        DriveAction::Send { datagram, .. } => datagram,
        other => panic!("sent, got {other:?}"),
    };
    let (initiator, action) = initiator.drive(DriveEvent::Sent(Ok(())));
    assert!(matches!(action, DriveAction::Receive));

    let (responder, _) = Drive::start(attempt(9, 1)).expect("starts");
    let (responder, _) = responder.drive(DriveEvent::Bound(true));
    let (responder, action) = responder.drive(DriveEvent::Drawn(Some([2, 0, 0, 0])));
    assert!(matches!(action, DriveAction::Receive));
    let (responder, action) = responder.drive(datagram(first));
    assert!(matches!(action, DriveAction::Answer { .. }));
    let (responder, action) = responder.drive(DriveEvent::Written(Some(vec![6; 40])));
    let answer = match action {
        DriveAction::Send { datagram, .. } => datagram,
        other => panic!("sent, got {other:?}"),
    };
    let (responder, action) = responder.drive(DriveEvent::Sent(Ok(())));
    assert!(matches!(action, DriveAction::Confirm { trust_epoch: 4, .. }));
    let (_, action) = responder.drive(DriveEvent::Confirmed(true));
    let far = match action {
        DriveAction::Done(Ok(h)) => h,
        other => panic!("done, got {other:?}"),
    };

    let (initiator, action) = initiator.drive(datagram(answer));
    assert!(matches!(action, DriveAction::ReadResponse { .. }));
    let (initiator, action) = initiator.drive(DriveEvent::ResponseRead(true));
    assert!(matches!(action, DriveAction::Confirm { .. }));
    let (_, action) = initiator.drive(DriveEvent::Confirmed(true));
    let near = match action {
        DriveAction::Done(Ok(h)) => h,
        other => panic!("done, got {other:?}"),
    };
    assert_eq!(near.local_receiver, far.peer_receiver);
    assert_eq!(near.peer_receiver, far.local_receiver);
}

#[test]
fn a_refused_binding_ends_the_handshake() {
    let (drive, _) = Drive::start(attempt(1, 9)).expect("starts");
    let (_, action) = drive.drive(DriveEvent::Bound(false));
    assert!(matches!(action, DriveAction::Done(Err(Refusal::Rejected))));
}

#[test]
fn a_receive_ends_as_it_did() {
    assert_eq!(receive(ReceiveEnd::Expired), Err(Refusal::NoResponse));
    let gone = PlatformError {
        kind: PlatformKind::Refused,
        code: ReasonCode::NetNoRoute,
        evidence: Evidence::Adapter("the adapter said no"),
    };
    assert_eq!(
        receive(ReceiveEnd::Failed(gone)),
        Err(Refusal::Platform(gone))
    );
    assert_eq!(Refusal::Platform(gone).reason_code().as_str(), "NET.NO_ROUTE");
}

#[test]
fn a_deadline_stops_at_the_end_of_time() {
    assert_eq!(deadline_from(5, 10), 15);
    assert_eq!(deadline_from(u64::MAX, 10), u64::MAX);
}
