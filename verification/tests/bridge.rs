use twinvpn_core::bridge::{
    decode_peer, encode_peer, CommitOutcome, FlushError, Namespace, RecordName, StoreBridge,
    StoreError, TxOp,
};
use twinvpn_core::planes::{new_shared, ControlPlanePort, DataPlaneView, PeerRecord, PendingWrite};
use twinvpn_core::types::{
    DeviceId, Endpoint, IpAddr, OverlayAddresses, Port, TwinnetId, V4Addr, V6Addr,
};

fn twinnet() -> TwinnetId {
    TwinnetId::new("tn-bridge")
}

fn endpoint(address: IpAddr, port: u16) -> Endpoint {
    Endpoint {
        address,
        port: Port::new(port).expect("port"),
    }
}

fn v4_endpoint() -> Endpoint {
    endpoint(
        IpAddr::V4(V4Addr::from_slice(&[198, 51, 100, 7]).expect("v4")),
        51_820,
    )
}

fn record_with(endpoints: Vec<Endpoint>) -> PeerRecord {
    PeerRecord {
        device_id: DeviceId::from_slice(&[5; 32]).expect("32"),
        generation: 2,
        tk_generation: 3,
        tunnel_key_binding_verified: true,
        endpoints,
        overlay: OverlayAddresses {
            v4: V4Addr::from_slice(&[100, 64, 0, 5]).expect("v4"),
            v6: V6Addr::from_slice(&[0xfd; 16], 0).expect("v6"),
        },
    }
}

#[test]
fn the_cached_endpoints_survive_a_round_trip() {
    let endpoints = vec![
        v4_endpoint(),
        endpoint(
            IpAddr::V6(
                V6Addr::from_slice(
                    &[0x20, 0x01, 0x0d, 0xb8, 0, 0, 0, 0, 0, 0, 0, 0, 0, 0, 0, 1],
                    0,
                )
                .expect("v6"),
            ),
            51_821,
        ),
    ];
    let original = record_with(endpoints);
    let back = decode_peer(&encode_peer(&original)).expect("round-trips");
    assert_eq!(back, original, "both families must survive the vault");
    assert_eq!(back.endpoints.len(), 2);
}

#[test]
fn a_truncated_peer_record_is_refused_not_partially_recovered() {
    let original = record_with(vec![v4_endpoint()]);
    let encoded = encode_peer(&original);
    for cut in [0, 10, 64, encoded.len() - 1] {
        assert!(
            decode_peer(&encoded[..cut]).is_err(),
            "a {cut}-byte record must be refused, not half-recovered"
        );
    }
}

#[test]
fn a_declared_endpoint_count_cannot_drive_an_unbounded_allocation() {
    let mut encoded = encode_peer(&record_with(Vec::new()));
    encoded[61..65].copy_from_slice(&u32::MAX.to_be_bytes());
    assert!(decode_peer(&encoded).is_err());
}

#[test]
fn a_peer_record_encodes_both_families() {
    let record = record_with(Vec::new());
    let bytes = encode_peer(&record);
    assert!(bytes.len() >= 65);
    assert!(
        bytes.windows(16).any(|w| w == [0xfd; 16]),
        "the v6 half must be stored, not dropped"
    );
}

#[test]
fn the_queue_is_what_a_flush_would_drain() {
    let mut cp = ControlPlanePort::new(new_shared());
    assert!(cp.advance_trust_epoch(&twinnet(), 3));
    assert!(cp.put_document(&twinnet(), "policy_bundle", 1, [0; 32], b"octets"));
    let pending = cp.shared().pending_snapshot();
    assert_eq!(pending.len(), 2);
    assert!(matches!(pending[0], PendingWrite::TrustEpoch { .. }));
    assert!(matches!(pending[1], PendingWrite::Document { .. }));
}

#[test]
fn a_corrupt_record_is_named_as_one() {
    assert!(matches!(
        decode_peer(&[0; 3]),
        Err(StoreError::RecordCorrupt {
            namespace: "peer/",
            ..
        })
    ));
}

#[test]
fn the_octets_of_a_record_stand_where_they_are_read() {
    let bytes = encode_peer(&record_with(vec![v4_endpoint()]));
    assert_eq!(&bytes[..32], &[5; 32]);
    assert_eq!(&bytes[32..36], &2u32.to_be_bytes());
    assert_eq!(&bytes[36..40], &3u32.to_be_bytes());
    assert_eq!(bytes[40], 1);
    assert_eq!(&bytes[41..45], &[100, 64, 0, 5]);
    assert_eq!(&bytes[45..61], &[0xfd; 16]);
    assert_eq!(&bytes[61..65], &1u32.to_be_bytes());
}

#[test]
fn a_flush_stages_everything_in_one_transaction() {
    let mut cp = ControlPlanePort::new(new_shared());
    let mut bridge = StoreBridge::new(7);
    assert!(bridge.flush_begin(cp.shared()).is_none());
    assert!(cp.advance_trust_epoch(&twinnet(), 3));
    assert!(cp.put_document(&twinnet(), "policy_bundle", 1, [0; 32], b"octets"));
    let plan = bridge.flush_begin(cp.shared()).expect("two writes");
    assert_eq!(plan.count, 2);
    assert_eq!(bridge.rec_seq, 9);
    assert!(plan.ops.iter().any(|op| matches!(
        op,
        TxOp::Write {
            verbatim_signed: true,
            ..
        }
    )));
    assert_eq!(
        bridge.flush_finish(&mut cp.shared, &plan, CommitOutcome::Committed),
        Ok(2)
    );
    assert_eq!(bridge.flushes(), 1);
    assert!(cp.shared().pending_snapshot().is_empty());
}

#[test]
fn a_refused_floor_is_published_and_a_failure_keeps_the_queue() {
    let mut cp = ControlPlanePort::new(new_shared());
    let mut bridge = StoreBridge::new(0);
    assert!(cp.advance_trust_epoch(&twinnet(), 3));
    let plan = bridge.flush_begin(cp.shared()).expect("one write");
    assert_eq!(
        bridge.flush_finish(&mut cp.shared, &plan, CommitOutcome::Failed),
        Err(FlushError::Failed)
    );
    assert_eq!(cp.shared().pending_snapshot().len(), 1);
    let plan = bridge.flush_begin(cp.shared()).expect("still one write");
    assert_eq!(
        bridge.flush_finish(
            &mut cp.shared,
            &plan,
            CommitOutcome::FloorWouldDecrease("floor".to_owned())
        ),
        Err(FlushError::FloorWouldDecrease)
    );
    assert!(cp.shared().pending_snapshot().is_empty());
    assert_eq!(
        DataPlaneView::new(cp.shared()).last_refusal().as_deref(),
        Some("floor")
    );
    assert_eq!(bridge.flushes(), 0);
}

#[test]
fn a_refused_name_gives_back_the_numbers_behind_it() {
    let mut cp = ControlPlanePort::new(new_shared());
    let mut bridge = StoreBridge::new(10);
    assert!(cp.advance_trust_epoch(&twinnet(), 1));
    assert!(cp.advance_trust_epoch(&twinnet(), 2));
    let plan = bridge.flush_begin(cp.shared()).expect("two writes");
    assert_eq!(
        bridge.flush_finish(
            &mut cp.shared,
            &plan,
            CommitOutcome::NameRefused { at: 0 }
        ),
        Err(FlushError::NameRefused)
    );
    assert_eq!(bridge.rec_seq, 11);
    assert_eq!(cp.shared().pending_snapshot().len(), 2);
}

#[test]
fn a_removed_peer_is_deleted_by_its_fingerprint() {
    let mut cp = ControlPlanePort::new(new_shared());
    let mut bridge = StoreBridge::new(0);
    let peer = DeviceId::from_slice(&[5; 32]).expect("32");
    cp.remove_peer(&twinnet(), peer, "AUTH.DEVICE_REVOKED");
    let plan = bridge.flush_begin(cp.shared()).expect("one write");
    assert_eq!(plan.ops.len(), 1);
    match &plan.ops[0] {
        TxOp::Delete { namespace, name } => {
            assert_eq!(*namespace, Namespace::Peer);
            assert_eq!(name.text("fp"), "tn-bridge.fp");
        }
        other => panic!("a removal is a delete, got {other:?}"),
    }
}

#[test]
fn a_record_is_spelled_by_what_it_holds() {
    assert_eq!(RecordName::Cursor(twinnet()).text(""), "cursor.tn-bridge");
    assert_eq!(RecordName::Epoch(twinnet()).text(""), "epoch.tn-bridge");
    assert_eq!(
        RecordName::DocumentVersion("policy_bundle", twinnet()).text(""),
        "policy_bundle.tn-bridge.version"
    );
    assert_eq!(
        RecordName::Causality(twinnet()).text(""),
        "causality.tn-bridge"
    );
    assert_eq!(RecordName::Session("0a".to_owned()).text(""), "0a");
}
