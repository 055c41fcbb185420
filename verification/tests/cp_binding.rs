use twinvpn_core::cp_binding::statements::{
    window_of, AnchorStatementVerifier, CryptoError, KeyRef, SigningAuthority, StatementKind,
    Tried, ValidityWindow, VerifyFailure,
};
use twinvpn_core::cp_binding::store::{CachedPeer, ControlPlaneBinding, StoreFailure};
use twinvpn_core::cp_binding::transport::{
    bind_step, nat64_of, AttachFamilies, BindAction, BindEvent, BindStage, ControlEndpoint,
    ControlPlaneEnrolment, ControlTransportBinding, LinkFacts, Nat64Prefix, Rung,
};
use twinvpn_core::planes::{new_shared, ControlPlanePort, DataPlaneView};
use twinvpn_core::reason::ReasonCode;
use twinvpn_core::types::{DeviceId, OverlayAddresses, TwinnetId, V4Addr, V6Addr};

fn twinnet() -> TwinnetId {
    TwinnetId::new("tn-cp")
}

fn cached(byte: u8) -> CachedPeer {
    CachedPeer {
        device_id: DeviceId::from_slice(&[byte; 32]).expect("32"),
        generation: 3,
        tk_generation: 2,
        tunnel_key_binding_verified: true,
        endpoints: Vec::new(),
        overlay: OverlayAddresses {
            v4: V4Addr::from_slice(&[100, 64, 1, byte]).expect("v4"),
            v6: V6Addr::from_slice(
                &[0xfd, 0x7c, 0, 0, 0, 0, 0, 0, 0, 0, 0, 0, 0, 0, 0, byte],
                0,
            )
            .expect("v6"),
        },
    }
}

fn binding() -> ControlPlaneBinding {
    ControlPlaneBinding::new(ControlPlanePort::new(new_shared()))
}

#[test]
fn a_peer_written_through_the_client_is_readable_by_the_data_plane() {
    let mut binding = binding();
    binding.put_trusted_peer(&twinnet(), &cached(7));
    let record = DataPlaneView::new(binding.port.shared())
        .peer(&twinnet(), DeviceId::from_slice(&[7; 32]).expect("32"))
        .expect("the data plane reads what the control plane wrote");
    assert_eq!(record.generation, 3);
    assert!(record.tunnel_key_binding_verified);
}

#[test]
fn a_rolled_back_cursor_is_a_typed_refusal_not_a_silent_accept() {
    let mut binding = binding();
    binding
        .advance_cursor(&twinnet(), 20)
        .expect("first advance");
    let err = binding
        .advance_cursor(&twinnet(), 19)
        .expect_err("must refuse");
    assert!(matches!(
        err,
        StoreFailure::RollbackRefused {
            offered: 19,
            floor: 20
        }
    ));
}

#[test]
fn a_forked_document_is_refused() {
    let mut binding = binding();
    binding
        .put_document(&twinnet(), "policy_bundle", 4, [1; 32], b"a")
        .expect("first write");
    let err = binding
        .put_document(&twinnet(), "policy_bundle", 4, [2; 32], b"b")
        .expect_err("a fork must be refused");
    assert!(matches!(err, StoreFailure::Forked { version: 4 }));
}

#[test]
fn the_client_reads_its_own_writes_back_through_the_store() {
    let mut binding = binding();
    binding.put_trusted_peer(&twinnet(), &cached(1));
    binding.put_trusted_peer(&twinnet(), &cached(2));
    let peers = binding.trusted_peers(&twinnet());
    assert_eq!(peers.len(), 2);
    assert!(peers.iter().all(|p| p.tunnel_key_binding_verified));
}

#[test]
fn a_document_mark_is_absent_rather_than_invented() {
    let binding = binding();
    let mark = binding.document_version(&twinnet(), "policy_bundle");
    assert!(
        mark.is_none(),
        "the bands live in the signed payload; a fabricated mark would make the \
         staleness ladder run on fiction"
    );
}

#[test]
fn a_rolled_back_document_and_epoch_name_the_floor() {
    let mut binding = binding();
    binding
        .put_document(&twinnet(), "policy_bundle", 4, [1; 32], b"a")
        .expect("first write");
    assert_eq!(
        binding.put_document(&twinnet(), "policy_bundle", 3, [2; 32], b"b"),
        Err(StoreFailure::RollbackRefused {
            offered: 3,
            floor: 4
        })
    );
    assert_eq!(binding.advance_trust_epoch(&twinnet(), 6), Ok(()));
    assert_eq!(
        binding.advance_trust_epoch(&twinnet(), 5),
        Err(StoreFailure::RollbackRefused {
            offered: 5,
            floor: 6
        })
    );
    assert_eq!(binding.trust_epoch(&twinnet()), 6);
}

#[test]
fn a_removed_peer_and_a_token_go_through_the_store() {
    let mut binding = binding();
    binding.put_trusted_peer(&twinnet(), &cached(1));
    binding.remove_trusted_peer(
        &twinnet(),
        DeviceId::from_slice(&[1; 32]).expect("32"),
        "AUTH.DEVICE_REVOKED",
    );
    assert!(binding.trusted_peers(&twinnet()).is_empty());
    assert_eq!(binding.causality_token(&twinnet()), None);
    binding.put_causality_token(&twinnet(), b"tok");
    assert_eq!(binding.causality_token(&twinnet()), Some(b"tok".to_vec()));
    assert_eq!(binding.cursor(&twinnet()), 0);
}

fn endpoint() -> ControlEndpoint {
    ControlEndpoint {
        server_name: "cp.test.invalid".to_owned(),
    }
}

#[test]
fn an_empty_pin_set_is_refused_before_a_socket_is_bound() {
    let err =
        ControlPlaneEnrolment::new(Vec::new(), vec![endpoint()]).expect_err("nothing is pinned");
    assert_eq!(err.code().as_str(), "CONTROL.HANDSHAKE_REJECTED");
    let err = ControlPlaneEnrolment::new(vec![Vec::new()], vec![endpoint()])
        .expect_err("an empty pin");
    assert_eq!(err.code().as_str(), "CONTROL.HANDSHAKE_REJECTED");
}

#[test]
fn no_endpoint_is_unreachable_rather_than_a_rejected_handshake() {
    let err = ControlPlaneEnrolment::new(vec![vec![1, 2, 3]], Vec::new())
        .expect_err("nowhere to attach");
    assert_eq!(err.code().as_str(), "CONTROL.UNREACHABLE");
}

#[test]
fn the_names_come_from_the_endpoints_and_cannot_disagree_with_them() {
    let enrolment =
        ControlPlaneEnrolment::new(vec![vec![9]], vec![endpoint()]).expect("one pin");
    assert_eq!(enrolment.coordination_names(), vec!["cp.test.invalid"]);
    assert_eq!(enrolment.pin_count(), 1);
}

#[test]
fn a_well_known_pref64_survives_and_a_shorter_prefix_is_dropped() {
    let mut base = [0u8; 16];
    base[..4].copy_from_slice(&[0x00, 0x64, 0xff, 0x9b]);
    let well_known = Nat64Prefix {
        octets: base,
        len: 96,
    };
    assert_eq!(well_known.len, 96);
    assert_eq!(
        nat64_of(Some(well_known)),
        Some(base),
        "64:ff9b::/96 round-trips through the two representations"
    );
    assert_eq!(nat64_of(None), None);

    let mut octets = [0u8; 16];
    octets[0] = 0x20;
    octets[1] = 0x01;
    let sixty_four = Nat64Prefix { octets, len: 64 };
    assert_eq!(nat64_of(Some(sixty_four)), None);
}

#[test]
fn binding_refuses_each_thing_under_its_own_code() {
    let enrolment =
        ControlPlaneEnrolment::new(vec![vec![9]], vec![endpoint()]).expect("one pin");
    let refusal = |stage: BindStage, event: BindEvent| match bind_step(&enrolment, stage, event) {
        (BindStage::Ended, BindAction::Refused(d)) => d.code().as_str(),
        other => panic!("refused, got {other:?}"),
    };
    let (stage, action) = ControlTransportBinding::bind();
    assert!(matches!(action, BindAction::Identify), "the identity first");
    assert_eq!(
        refusal(
            stage,
            BindEvent::Identity(Err(ReasonCode::AuthKeyUnavailable))
        ),
        "AUTH.KEY_UNAVAILABLE"
    );
    let (stage, action) = bind_step(&enrolment, stage, BindEvent::Identity(Ok(())));
    assert!(matches!(action, BindAction::ReadLink));
    assert_eq!(refusal(stage, BindEvent::Facts(None)), "CONTROL.UNREACHABLE");
    let facts = LinkFacts {
        v4: false,
        v6: true,
        nat64: Some(Nat64Prefix {
            octets: [0; 16],
            len: 96,
        }),
    };
    let (stage, action) = bind_step(&enrolment, stage, BindEvent::Facts(Some(facts)));
    let families = match action {
        BindAction::Attach(families) => families,
        other => panic!("asks for a family, got {other:?}"),
    };
    assert!(!families.v4 && families.v6 && families.nat64);
    assert_eq!(
        refusal(stage, BindEvent::Attachable(false)),
        "CONTROL.UNREACHABLE"
    );
    let (stage, action) = bind_step(&enrolment, stage, BindEvent::Attachable(true));
    match action {
        BindAction::Build { nat64 } => assert_eq!(nat64, Some([0; 16])),
        other => panic!("builds, got {other:?}"),
    }
    assert_eq!(
        refusal(
            stage,
            BindEvent::Built(Err(ReasonCode::ControlHandshakeRejected))
        ),
        "CONTROL.HANDSHAKE_REJECTED"
    );
    let bound = match bind_step(&enrolment, stage, BindEvent::Built(Ok(()))) {
        (BindStage::Ended, BindAction::Bound(bound)) => bound,
        other => panic!("bound, got {other:?}"),
    };
    let config = bound.attach_config(true);
    assert_eq!(config.coordination_endpoints, vec!["cp.test.invalid"]);
    assert_eq!(config.rung, Rung::Quic);
    assert!(config.mobile_background);
    assert_eq!(bound.families(), families);
    let other = AttachFamilies {
        v4: true,
        v6: false,
        nat64: false,
    };
    assert_eq!(
        ControlTransportBinding::over(vec!["a".to_owned()], other).families(),
        other
    );
}

#[test]
fn an_owner_statement_is_tried_against_the_root_and_then_its_delegations() {
    let none = AnchorStatementVerifier::new(false).with_owner_delegations(vec![true]);
    assert_eq!(
        none.candidates(SigningAuthority::Owner),
        Err(VerifyFailure::NoAnchor)
    );
    let v = AnchorStatementVerifier::new(true)
        .with_owner_delegations(vec![true, false, true])
        .with_device_keys(vec![false, true])
        .with_log_head_keys(vec![false]);
    assert_eq!(
        v.candidates(SigningAuthority::Owner),
        Ok(vec![KeyRef::Ork, KeyRef::Osk(0), KeyRef::Osk(2)])
    );
    assert_eq!(
        v.candidates(SigningAuthority::Device),
        Ok(vec![KeyRef::Device(1)])
    );
    assert_eq!(
        v.candidates(SigningAuthority::OnlineControlPlane),
        Err(VerifyFailure::NoAnchor)
    );
}

#[test]
fn only_the_wrong_key_is_worth_another_try() {
    let v = AnchorStatementVerifier::new(true).with_owner_delegations(vec![true]);
    let mut run = v
        .begin(StatementKind::PolicyBundle, SigningAuthority::Owner)
        .expect("keys");
    assert_eq!(run.current(), KeyRef::Ork);
    assert!(run
        .verify(Tried::Failed(CryptoError::SignatureInvalid), b"s")
        .is_none());
    assert_eq!(run.current(), KeyRef::Osk(0));
    let verified = run
        .verify(Tried::Verified(Ok(9)), b"s")
        .expect("a verdict")
        .expect("verified");
    assert_eq!(verified.payload, b"s");
    assert_eq!(verified.window.not_after_ms, Some(9));

    let mut run = v
        .begin(StatementKind::PolicyBundle, SigningAuthority::Owner)
        .expect("keys");
    assert!(matches!(
        run.verify(Tried::Failed(CryptoError::NonCanonicalCbor), b"s"),
        Some(Err(VerifyFailure::NonCanonical))
    ));

    let mut run = AnchorStatementVerifier::new(true)
        .begin(StatementKind::PolicyBundle, SigningAuthority::Owner)
        .expect("keys");
    assert!(matches!(
        run.verify(Tried::Failed(CryptoError::SignatureInvalid), b"s"),
        Some(Err(VerifyFailure::BadSignature))
    ));
}

#[test]
fn every_envelope_failure_has_its_own_verdict() {
    for (error, failure) in [
        (
            CryptoError::UnknownCriticalField,
            VerifyFailure::UnknownCriticalField,
        ),
        (
            CryptoError::MissingCriticalField,
            VerifyFailure::UnknownCriticalField,
        ),
        (
            CryptoError::IdentityAlgUnsupported,
            VerifyFailure::WrongAuthority,
        ),
        (CryptoError::Other, VerifyFailure::BadSignature),
    ] {
        let mut run = AnchorStatementVerifier::new(true)
            .begin(StatementKind::LogHead, SigningAuthority::Owner)
            .expect("keys");
        match run.verify(Tried::Failed(error), b"") {
            Some(Err(got)) => assert_eq!(got, failure),
            other => panic!("a failure is a verdict, got {other:?}"),
        }
    }
}

#[test]
fn a_revocation_has_no_end_and_a_key_binding_no_verdict() {
    assert_eq!(
        window_of(StatementKind::RevocationStatement, Ok(5)),
        Ok(ValidityWindow {
            not_before_ms: None,
            not_after_ms: None
        })
    );
    assert_eq!(
        window_of(StatementKind::NetworkContract, Ok(5)),
        Ok(ValidityWindow {
            not_before_ms: None,
            not_after_ms: Some(5)
        })
    );
    assert_eq!(
        window_of(StatementKind::TunnelKeyBinding, Ok(5)),
        Err(VerifyFailure::NoAnchor)
    );
    assert_eq!(
        window_of(
            StatementKind::PolicyBundle,
            Err(CryptoError::MissingCriticalField)
        ),
        Err(VerifyFailure::UnknownCriticalField)
    );
    assert_eq!(
        window_of(StatementKind::PolicyBundle, Err(CryptoError::Other)),
        Err(VerifyFailure::TypeMismatch)
    );
}
