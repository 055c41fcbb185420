use std::collections::BTreeMap;

use twinvpn_core::bridge::{
    read_facts, CommitOutcome, FlushPlan, HeldFact, RecordName, StoreBridge, StoreError, TxOp,
};
use twinvpn_core::build_identity::BuildStamp;
use twinvpn_core::instance::{Core, CoreParts};
use twinvpn_core::lite::Profile;
use twinvpn_core::planes::{new_shared, ControlPlanePort, DataPlaneView, PeerRecord};
use twinvpn_core::reason::ReasonCode;
use twinvpn_core::types::{
    DeviceId, Endpoint, IpAddr, OverlayAddresses, Port, TwinnetId, V4Addr, V6Addr,
};
use twinvpn_core::vault::StoreOpened;
use twinvpn_core::{ABI_MAJOR, ABI_MINOR};

const DIGEST: [u8; 32] = [7; 32];

fn instance() -> Core {
    Core::create(CoreParts {
        abi_major_expected: ABI_MAJOR,
        abi_major: ABI_MAJOR,
        abi_minor: ABI_MINOR,
        schema_digest: vec![0xab; 32],
        crypto_provider: "mock".to_owned(),
        sek_custody: "core-held:mlock".to_owned(),
        hardware_backed: false,
        adapter_binding: "mock-in-memory",
        stamp: BuildStamp {
            target_triple: "unknown",
            source_commit: "",
            reason_registry_version: 2,
        },
        profile: Profile::Full,
        event_capacity: 64,
        instance_id: 1,
    })
    .expect("creates")
}

fn store() -> StoreOpened {
    StoreOpened {
        store_seq: 0,
        suspend_granted_authority: false,
    }
}

fn twinnet() -> TwinnetId {
    TwinnetId::new("tn-restart")
}

fn device(byte: u8) -> DeviceId {
    DeviceId::from_slice(&[byte; 32]).expect("32")
}

fn peer(byte: u8) -> PeerRecord {
    PeerRecord {
        device_id: device(byte),
        generation: 2,
        tk_generation: 3,
        tunnel_key_binding_verified: true,
        endpoints: vec![
            Endpoint {
                address: IpAddr::V4(V4Addr::from_slice(&[198, 51, 100, byte]).expect("v4")),
                port: Port::new(51_820).expect("port"),
            },
            Endpoint {
                address: IpAddr::V6(V6Addr::from_slice(&[0xfe; 16], 3).expect("v6")),
                port: Port::new(51_821).expect("port"),
            },
        ],
        overlay: OverlayAddresses {
            v4: V4Addr::from_slice(&[100, 64, 0, byte]).expect("v4"),
            v6: V6Addr::from_slice(&[0xfd; 16], 0).expect("v6"),
        },
    }
}

fn mark(value: u64) -> Vec<u8> {
    value.to_be_bytes().to_vec()
}

/// A vault: its records by their names, and what each name stands for.
#[derive(Default)]
struct Vault {
    records: BTreeMap<String, Vec<u8>>,
    names: BTreeMap<String, (RecordKind, TwinnetId)>,
}

enum RecordKind {
    Cursor,
    Epoch,
    Document(&'static str),
    Other,
    Peer,
    Causality,
}

impl Vault {
    fn spelled(name: &RecordName) -> (String, RecordKind, TwinnetId) {
        let (kind, twinnet, fingerprint) = match name {
            RecordName::Cursor(t) => (RecordKind::Cursor, t.clone(), String::new()),
            RecordName::Epoch(t) => (RecordKind::Epoch, t.clone(), String::new()),
            RecordName::Document(d, t) => (RecordKind::Document(*d), t.clone(), String::new()),
            RecordName::DocumentVersion(_, t) => (RecordKind::Other, t.clone(), String::new()),
            RecordName::Peer(t, d) => (RecordKind::Peer, t.clone(), format!("{:?}", d.bytes)),
            RecordName::Session(_) => (RecordKind::Other, TwinnetId::new(""), String::new()),
            RecordName::Causality(t) => (RecordKind::Causality, t.clone(), String::new()),
        };
        (name.text(&fingerprint), kind, twinnet)
    }

    fn commit(&mut self, plan: &FlushPlan) {
        for op in &plan.ops {
            match op {
                TxOp::Write { name, value, .. } => {
                    let (text, kind, twinnet) = Self::spelled(name);
                    self.records.insert(text.clone(), value.clone());
                    self.names.insert(text, (kind, twinnet));
                }
                TxOp::Delete { name, .. } => {
                    let (text, _, _) = Self::spelled(name);
                    self.records.remove(&text);
                    self.names.remove(&text);
                }
                TxOp::AdvanceFloor { .. } => {}
            }
        }
    }

    fn facts(&self) -> Vec<HeldFact> {
        let mut facts = Vec::new();
        for (text, value) in &self.records {
            let (kind, twinnet) = &self.names[text];
            let (twinnet, value) = (twinnet.clone(), value.clone());
            match kind {
                RecordKind::Cursor => facts.push(HeldFact::Cursor { twinnet, value }),
                RecordKind::Epoch => facts.push(HeldFact::TrustEpoch { twinnet, value }),
                RecordKind::Document(doc_type) => facts.push(HeldFact::Document {
                    twinnet,
                    doc_type: *doc_type,
                    version: self.records[&format!("{text}.version")].clone(),
                    payload: value,
                    content_digest: DIGEST,
                }),
                RecordKind::Peer => facts.push(HeldFact::Peer { twinnet, value }),
                RecordKind::Causality => facts.push(HeldFact::CausalityToken {
                    twinnet,
                    token: value,
                }),
                RecordKind::Other => {}
            }
        }
        facts
    }
}

#[test]
fn what_was_flushed_is_read_back_after_a_restart() {
    let mut vault = Vault::default();
    let mut core = instance();
    let _ = core
        .open_store(Ok(store()), &Vec::new(), &Vec::new(), &vault.facts())
        .expect("opens");
    let port = core.control_plane_port();
    assert!(port.advance_cursor(&twinnet(), 41));
    assert!(port.advance_cursor(&twinnet(), 42));
    assert!(port.advance_trust_epoch(&twinnet(), 9));
    assert!(port.put_document(&twinnet(), "policy_bundle", 1, [1; 32], b"old"));
    assert!(port.put_document(&twinnet(), "policy_bundle", 3, DIGEST, b"octets"));
    port.put_peer(&twinnet(), peer(1));
    port.put_peer(&twinnet(), peer(2));
    port.remove_peer(&twinnet(), device(2), "AUTH.DEVICE_REVOKED");
    port.put_causality_token(&twinnet(), b"token");
    let plan = core.flush().expect("a store").expect("queued");
    vault.commit(&plan);
    let flushed = core.flushed(
        &plan,
        CommitOutcome::Committed,
        ReasonCode::StoreCustodyDegraded,
    );
    assert_eq!(flushed, Ok(plan.count));

    let mut next = instance();
    let _ = next
        .open_store(Ok(store()), &Vec::new(), &Vec::new(), &vault.facts())
        .expect("opens");
    assert!(next.port.shared.pending_snapshot().is_empty());
    assert_eq!(next.port.cursor(&twinnet()), 42);
    assert_eq!(
        next.port.causality_token(&twinnet()),
        Some(b"token".to_vec())
    );
    let view = DataPlaneView::new(&next.port.shared);
    assert_eq!(view.trust_epoch(&twinnet()), 9);
    assert_eq!(view.document(&twinnet(), "policy_bundle"), Some(b"octets".to_vec()));
    assert_eq!(view.document_version(&twinnet(), "policy_bundle"), Some(3));
    assert_eq!(view.peers(&twinnet()), vec![peer(1)]);
    assert!(view.peer_authorized(device(1)));
    assert!(!view.peer_authorized(device(2)));
    let port = next.control_plane_port();
    assert!(!port.advance_cursor(&twinnet(), 42));
    assert!(!port.advance_trust_epoch(&twinnet(), 8));
    assert!(!port.put_document(&twinnet(), "policy_bundle", 3, [1; 32], b"fork"));
    assert!(port.put_document(&twinnet(), "policy_bundle", 3, DIGEST, b"octets"));
}

#[test]
fn what_the_vault_held_lowers_no_mark_and_no_peer() {
    let mut port = ControlPlanePort::new(new_shared());
    assert!(port.advance_cursor(&twinnet(), 10));
    assert!(port.advance_trust_epoch(&twinnet(), 4));
    assert!(port.put_document(&twinnet(), "policy_bundle", 2, DIGEST, b"new"));
    port.put_peer(&twinnet(), peer(1));
    port.remove_peer(&twinnet(), device(2), "AUTH.DEVICE_REVOKED");
    port.put_causality_token(&twinnet(), b"newer");
    let queued = port.shared.pending_snapshot();
    let mut older = peer(1);
    older.generation = 1;
    let facts = read_facts(&vec![
        HeldFact::Cursor {
            twinnet: twinnet(),
            value: mark(9),
        },
        HeldFact::TrustEpoch {
            twinnet: twinnet(),
            value: mark(5),
        },
        HeldFact::Document {
            twinnet: twinnet(),
            doc_type: "policy_bundle",
            version: mark(1),
            payload: b"old".to_vec(),
            content_digest: DIGEST,
        },
        HeldFact::Peer {
            twinnet: twinnet(),
            value: twinvpn_core::bridge::encode_peer(&older),
        },
        HeldFact::Peer {
            twinnet: twinnet(),
            value: twinvpn_core::bridge::encode_peer(&peer(2)),
        },
        HeldFact::Peer {
            twinnet: twinnet(),
            value: twinvpn_core::bridge::encode_peer(&peer(3)),
        },
        HeldFact::CausalityToken {
            twinnet: twinnet(),
            token: b"older".to_vec(),
        },
    ])
    .expect("decodes");
    port.take_back(&facts);
    assert_eq!(port.cursor(&twinnet()), 10);
    assert_eq!(port.trust_epoch(&twinnet()), 5, "a higher one is taken");
    assert_eq!(port.document_version(&twinnet(), "policy_bundle"), Some(2));
    assert_eq!(port.causality_token(&twinnet()), Some(b"newer".to_vec()));
    let view = DataPlaneView::new(&port.shared);
    assert_eq!(view.document(&twinnet(), "policy_bundle"), Some(b"new".to_vec()));
    assert_eq!(
        view.peers(&twinnet()),
        vec![peer(1), peer(3)],
        "a peer whose removal is queued stays gone"
    );
    assert_eq!(port.shared.pending_snapshot(), queued, "nothing is queued");
}

#[test]
fn a_fact_that_does_not_decode_brings_nothing_back() {
    let cursor = || HeldFact::Cursor {
        twinnet: twinnet(),
        value: mark(6),
    };
    let cases = vec![
        (
            HeldFact::Cursor {
                twinnet: twinnet(),
                value: vec![0; 7],
            },
            "doc/",
            "mark length",
        ),
        (
            HeldFact::TrustEpoch {
                twinnet: twinnet(),
                value: vec![0; 9],
            },
            "trust/",
            "mark length",
        ),
        (
            HeldFact::Document {
                twinnet: twinnet(),
                doc_type: "policy_bundle",
                version: Vec::new(),
                payload: b"octets".to_vec(),
                content_digest: DIGEST,
            },
            "doc/",
            "mark length",
        ),
        (
            HeldFact::Peer {
                twinnet: twinnet(),
                value: vec![1; 64],
            },
            "peer/",
            "peer record length or endpoint framing",
        ),
    ];
    for (broken, where_it_stands, what_noticed) in cases {
        let mut core = instance();
        let facts = vec![cursor(), broken];
        match core.hydrate_planes(&facts) {
            Err(StoreError::RecordCorrupt {
                namespace,
                detector,
            }) => {
                assert_eq!(namespace, where_it_stands);
                assert_eq!(detector, what_noticed);
            }
            Ok(()) => panic!("a record does not decode"),
        }
        assert_eq!(core.port.cursor(&twinnet()), 0);
        let _ = core
            .open_store(Ok(store()), &Vec::new(), &Vec::new(), &facts)
            .expect("the store opens all the same");
        assert_eq!(core.port.cursor(&twinnet()), 0);
        assert!(core.hydrate_planes(&vec![cursor()]).is_ok());
        assert_eq!(core.port.cursor(&twinnet()), 6);
    }
}

#[test]
fn a_flush_that_the_store_refused_leaves_the_queue_for_the_next() {
    let mut port = ControlPlanePort::new(new_shared());
    assert!(port.advance_trust_epoch(&twinnet(), 2));
    let mut bridge = StoreBridge::new(0);
    let plan = bridge.flush_begin(&port.shared).expect("queued");
    let _ = bridge.flush_finish(&mut port.shared, &plan, CommitOutcome::Failed);
    assert_eq!(port.shared.pending_snapshot().len(), 1);
    let plan = bridge.flush_begin(&port.shared).expect("still queued");
    let mut vault = Vault::default();
    vault.commit(&plan);
    let facts = read_facts(&vault.facts()).expect("decodes");
    let mut next = ControlPlanePort::new(new_shared());
    next.take_back(&facts);
    assert_eq!(next.trust_epoch(&twinnet()), 2);
}
