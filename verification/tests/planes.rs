use twinvpn_core::planes::{new_shared, ControlPlanePort, DataPlaneView, PeerRecord, PendingWrite};
use twinvpn_core::types::{DeviceId, OverlayAddresses, TwinnetId, V4Addr, V6Addr};

fn twinnet() -> TwinnetId {
    TwinnetId::new("tn-test")
}

fn device(byte: u8) -> DeviceId {
    DeviceId::from_slice(&[byte; 32]).expect("32 bytes")
}

fn record(byte: u8) -> PeerRecord {
    PeerRecord {
        device_id: device(byte),
        generation: 1,
        tk_generation: 1,
        tunnel_key_binding_verified: true,
        endpoints: Vec::new(),
        overlay: OverlayAddresses {
            v4: V4Addr::from_slice(&[100, 64, 0, byte]).expect("v4"),
            v6: V6Addr::from_slice(
                &[
                    0xfd, 0x7c, 0x9e, 0x5d, 0x2a, 0x10, 0, 0, 0, 0, 0, 0, 0, 0, 0, byte,
                ],
                0,
            )
            .expect("v6"),
        },
    }
}

fn port() -> ControlPlanePort {
    ControlPlanePort::new(new_shared())
}

#[test]
fn the_control_plane_writes_and_the_data_plane_reads_the_same_fact() {
    let mut cp = port();
    cp.put_peer(&twinnet(), record(1));
    let dp = DataPlaneView::new(cp.shared());
    assert_eq!(dp.peer(&twinnet(), device(1)), Some(record(1)));
}

#[test]
fn a_cursor_never_goes_backwards() {
    let mut cp = port();
    assert!(cp.advance_cursor(&twinnet(), 10));
    assert!(
        !cp.advance_cursor(&twinnet(), 9),
        "a lower cursor is refused"
    );
    assert!(
        !cp.advance_cursor(&twinnet(), 10),
        "an equal cursor is refused"
    );
    assert_eq!(cp.cursor(&twinnet()), 10);
}

#[test]
fn a_trust_epoch_never_goes_backwards() {
    let mut cp = port();
    assert!(cp.advance_trust_epoch(&twinnet(), 4));
    assert!(!cp.advance_trust_epoch(&twinnet(), 3));
    assert_eq!(cp.trust_epoch(&twinnet()), 4);
}

#[test]
fn a_forked_document_is_refused_rather_than_overwritten() {
    let mut cp = port();
    assert!(cp.put_document(&twinnet(), "policy_bundle", 7, [1; 32], b"a"));
    assert!(
        !cp.put_document(&twinnet(), "policy_bundle", 7, [2; 32], b"b"),
        "a fork must be refused"
    );
    assert!(
        !cp.put_document(&twinnet(), "policy_bundle", 6, [3; 32], b"c"),
        "a rollback must be refused"
    );
}

#[test]
fn a_document_is_stored_verbatim() {
    let mut cp = port();
    let octets = vec![0x0a, 0x03, b'x', b'y', b'z', 0xf8, 0x01, 0x2a];
    assert!(cp.put_document(&twinnet(), "network_contract", 1, [9; 32], &octets));
    let dp = DataPlaneView::new(cp.shared());
    assert_eq!(dp.document(&twinnet(), "network_contract"), Some(octets));
}

#[test]
fn removing_a_peer_removes_it_from_the_data_plane_view() {
    let mut cp = port();
    cp.put_peer(&twinnet(), record(2));
    assert!(DataPlaneView::new(cp.shared())
        .peer(&twinnet(), device(2))
        .is_some());
    cp.remove_peer(&twinnet(), device(2), "AUTH.DEVICE_REVOKED");
    assert!(DataPlaneView::new(cp.shared())
        .peer(&twinnet(), device(2))
        .is_none());
}

#[test]
fn every_write_is_queued_for_durability_and_none_is_dropped() {
    let mut cp = port();
    assert!(cp.advance_cursor(&twinnet(), 1));
    assert!(cp.advance_trust_epoch(&twinnet(), 1));
    cp.put_peer(&twinnet(), record(3));
    cp.put_causality_token(&twinnet(), b"tok");
    let pending = cp.shared().pending_snapshot().len();
    assert_eq!(pending, 4, "a queued write must never be silently dropped");
}

#[test]
fn a_refused_write_does_not_reach_the_queue() {
    let mut cp = port();
    assert!(cp.advance_cursor(&twinnet(), 5));
    assert!(!cp.advance_cursor(&twinnet(), 4));
    assert_eq!(cp.shared().pending_snapshot().len(), 1);
}

#[test]
fn writes_are_queued_in_order() {
    let mut cp = port();
    assert!(cp.advance_cursor(&twinnet(), 1));
    cp.put_causality_token(&twinnet(), b"tok");
    assert_eq!(cp.causality_token(&twinnet()), Some(b"tok".to_vec()));
    let pending = cp.shared().pending_snapshot();
    assert!(matches!(pending[0], PendingWrite::Cursor { net_seq: 1, .. }));
    assert!(matches!(pending[1], PendingWrite::CausalityToken { .. }));
}

#[test]
fn a_flush_keeps_what_was_queued_after_it_began() {
    let mut cp = port();
    assert!(cp.advance_cursor(&twinnet(), 1));
    assert!(cp.advance_cursor(&twinnet(), 2));
    cp.shared.clear_pending(1);
    let pending = cp.shared().pending_snapshot();
    assert_eq!(pending.len(), 1);
    assert!(matches!(pending[0], PendingWrite::Cursor { net_seq: 2, .. }));
}

#[test]
fn only_a_verified_binding_authorizes_a_peer() {
    let mut cp = port();
    assert!(!DataPlaneView::new(cp.shared()).peer_authorized(device(1)));
    let mut unverified = record(1);
    unverified.tunnel_key_binding_verified = false;
    cp.put_peer(&twinnet(), unverified);
    assert!(!DataPlaneView::new(cp.shared()).peer_authorized(device(1)));
    cp.put_peer(&twinnet(), record(1));
    assert!(DataPlaneView::new(cp.shared()).peer_authorized(device(1)));
}

#[test]
fn peers_are_listed_in_ascending_order() {
    let mut cp = port();
    cp.put_peer(&twinnet(), record(9));
    cp.put_peer(&twinnet(), record(2));
    cp.put_peer(&TwinnetId::new("tn-other"), record(1));
    let peers = DataPlaneView::new(cp.shared()).peers(&twinnet());
    let ids: Vec<DeviceId> = peers.iter().map(|p| p.device_id).collect();
    assert_eq!(ids, vec![device(2), device(9)]);
}

#[test]
fn a_document_has_the_version_it_was_stored_at() {
    let mut cp = port();
    assert_eq!(cp.document_version(&twinnet(), "policy_bundle"), None);
    assert!(cp.put_document(&twinnet(), "policy_bundle", 7, [1; 32], b"a"));
    assert_eq!(cp.document_version(&twinnet(), "policy_bundle"), Some(7));
    assert!(cp.put_document(&twinnet(), "policy_bundle", 8, [2; 32], b"b"));
    let dp = DataPlaneView::new(cp.shared());
    assert_eq!(dp.document_version(&twinnet(), "policy_bundle"), Some(8));
    assert_eq!(dp.trust_epoch(&twinnet()), 0);
}
