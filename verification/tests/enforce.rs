use twinvpn_core::datapath::outcome::{PlatformError, PlatformKind};
use twinvpn_core::enforce::{
    arm, denied_dns_policy, host_prefixes, install, teardown, teardown_step, ArmAction, ArmBegin,
    ArmEvent, ArmStage, AssembleError, Enforcement, ProtectedPreconditions, RoutingMode, Ruleset,
    TeardownAction, TunnelHandle, DNS_MODE_OFF, MTU, OVERLAY_INTERFACE,
};
use twinvpn_core::reason::{Component, Diagnostic, Evidence, ReasonCode};
use twinvpn_core::planes::{new_shared, ControlPlanePort, DataPlaneView, PeerRecord};
use twinvpn_core::types::{DeviceId, IpAddr, OverlayAddresses, TwinnetId, V4Addr, V6Addr};

fn overlay(last: u8) -> OverlayAddresses {
    OverlayAddresses {
        v4: V4Addr::from_slice(&[100, 64, 0, last]).expect("v4"),
        v6: V6Addr::from_slice(
            &[0xfd, 0, 0, 0, 0, 0, 0, 0, 0, 0, 0, 0, 0, 0, 0, last],
            0,
        )
        .expect("v6"),
    }
}

fn twinnet() -> TwinnetId {
    TwinnetId::new("tn")
}

fn with_peers(peers: &[(u8, bool)]) -> ControlPlanePort {
    let mut cp = ControlPlanePort::new(new_shared());
    for (byte, verified) in peers {
        let record = PeerRecord {
            device_id: DeviceId::from_slice(&[*byte; 32]).expect("32"),
            generation: 1,
            tk_generation: 1,
            tunnel_key_binding_verified: *verified,
            endpoints: Vec::new(),
            overlay: overlay(*byte),
        };
        cp.put_peer(&twinnet(), record);
    }
    cp
}

fn refused() -> PlatformError {
    PlatformError {
        kind: PlatformKind::Refused,
        code: ReasonCode::PlatformOsUnsupported,
        evidence: Evidence::Adapter("the adapter said no"),
    }
}

fn begun(e: &mut Enforcement) -> ArmStage {
    let cp = with_peers(&[(2, true), (3, false)]);
    let view = DataPlaneView::new(cp.shared());
    match arm(e, &view, Some((twinnet(), overlay(1)))) {
        ArmBegin::Assemble { stage, request } => {
            assert_eq!(request.generation, 1);
            assert_eq!(request.overlay, overlay(1));
            assert_eq!(request.twinnet_prefixes.v4.len(), 1);
            assert_eq!(
                request.twinnet_prefixes.v4[0].address(),
                IpAddr::V4(overlay(2).v4)
            );
            assert_eq!(request.mode, RoutingMode::TwinnetOnly);
            assert_eq!(request.dns.dnspolicy_id, "twinvpn/default-denied");
            assert!(request.accepted.is_empty() && request.on_link.is_empty());
            assert!(request.excluded.is_empty() && request.selected_exit_node.is_none());
            assert!(request.stub_addresses.v4.is_empty() && request.stub_addresses.v6.is_empty());
            assert!(request.tunnel_remote_address.is_none());
            assert_eq!(request.interface, 0);
            stage
        }
        other => panic!("assembles, got {other:?}"),
    }
}

#[test]
fn a_core_starts_blocked_and_without_an_interface() {
    let e = Enforcement::default();
    assert_eq!(e.desired(), Ruleset::Blocked);
    assert_eq!(e.applied(), None);
    assert!(!e.has_interface());
    assert_eq!(OVERLAY_INTERFACE, "twin0");
    assert_eq!(MTU, 1280);
    assert_eq!(DNS_MODE_OFF, 3);
}

#[test]
fn arming_without_an_address_or_a_peer_is_refused_and_denied() {
    let mut e = Enforcement::default();
    let cp = with_peers(&[(2, true)]);
    match arm(&mut e, &DataPlaneView::new(cp.shared()), None) {
        ArmBegin::Refused { stage, action } => {
            assert!(matches!(
                stage,
                ArmStage::Tightening { failure } if failure.code() == ReasonCode::AuthIdentityMissing
            ));
            assert!(matches!(
                action,
                ArmAction::SetRuleset {
                    ruleset: Ruleset::Blocked,
                    ..
                }
            ));
        }
        other => panic!("refused, got {other:?}"),
    }
    let cp = with_peers(&[(2, false)]);
    let view = DataPlaneView::new(cp.shared());
    match arm(&mut e, &view, Some((twinnet(), overlay(1)))) {
        ArmBegin::Refused { stage, .. } => assert!(matches!(
            stage,
            ArmStage::Tightening { failure } if failure.code() == ReasonCode::AuthPeerUntrusted
        )),
        other => panic!("refused, got {other:?}"),
    }
}

#[test]
fn arming_denies_creates_raises_applies_and_reads_back() {
    let mut e = Enforcement::default();
    let stage = begun(&mut e);
    let (stage, action) = install(&mut e, stage, ArmEvent::Assembled(Ok(())));
    assert!(matches!(
        action,
        ArmAction::SetRuleset {
            ruleset: Ruleset::Blocked,
            ..
        }
    ));
    let (stage, action) = install(&mut e, stage, ArmEvent::Did(Ok(())));
    assert_eq!(
        action,
        ArmAction::CreateInterface {
            name: "twin0",
            mtu: 1280
        }
    );
    let (stage, action) = install(&mut e, stage, ArmEvent::Created(Ok(TunnelHandle(4))));
    assert_eq!(action, ArmAction::LinkUp(TunnelHandle(4)));
    let (stage, action) = install(&mut e, stage, ArmEvent::Did(Ok(())));
    assert_eq!(action, ArmAction::Apply { generation: 1 });
    let (stage, action) = install(&mut e, stage, ArmEvent::Did(Ok(())));
    assert_eq!(action, ArmAction::ReadRuleset);
    let read = ArmEvent::Read {
        installed: Ok(Some(Ruleset::Blocked)),
        connected: true,
    };
    let (stage, action) = install(&mut e, stage, read);
    assert_eq!(
        action,
        ArmAction::SetRuleset {
            generation: 1,
            ruleset: Ruleset::Protected
        }
    );
    let (stage, _) = install(&mut e, stage, ArmEvent::Did(Ok(())));
    let read = ArmEvent::Read {
        installed: Ok(Some(Ruleset::Protected)),
        connected: true,
    };
    let (_, action) = install(&mut e, stage, read);
    match action {
        ArmAction::Done {
            result: Ok(armed), ..
        } => {
            assert_eq!(armed.generation, 1);
            assert_eq!(armed.ruleset, Ruleset::Protected);
        }
        other => panic!("armed, got {other:?}"),
    }
    assert_eq!(e.applied(), Some(1));
    assert_eq!(e.handle(), Some(TunnelHandle(4)));
}

#[test]
fn protection_waits_for_a_validated_path() {
    let mut e = Enforcement::default();
    let none = ProtectedPreconditions {
        path_validated: false,
        ..held()
    };
    assert_eq!(e.leave_blocked(none), Ruleset::Blocked);
    assert_eq!(e.leave_blocked(held()), Ruleset::Protected);
    let generation = e.block();
    assert_eq!(e.desired(), Ruleset::Blocked);
    assert_eq!(generation, 0);
}

fn held() -> ProtectedPreconditions {
    ProtectedPreconditions {
        path_validated: true,
        ruleset_present_v4: true,
        ruleset_present_v6: true,
    }
}

#[test]
fn a_step_that_fails_is_named_and_the_host_denied() {
    let mut e = Enforcement::default();
    let stage = begun(&mut e);
    let (stage, _) = install(&mut e, stage, ArmEvent::Assembled(Ok(())));
    let (stage, _) = install(&mut e, stage, ArmEvent::Did(Ok(())));
    let (stage, action) = install(&mut e, stage, ArmEvent::Created(Err(refused())));
    assert!(matches!(
        action,
        ArmAction::SetRuleset {
            ruleset: Ruleset::Blocked,
            ..
        }
    ));
    let (_, action) = install(&mut e, stage, ArmEvent::Did(Ok(())));
    match action {
        ArmAction::Done {
            result: Err(d),
            publish: None,
        } => {
            assert_eq!(d.code(), ReasonCode::PlatformOsUnsupported);
            assert!(matches!(d.evidence, Evidence::ArmStep(_)));
        }
        other => panic!("refused, got {other:?}"),
    }
}

#[test]
fn a_contract_that_cannot_be_computed_is_refused() {
    let mut e = Enforcement::default();
    let stage = begun(&mut e);
    let no_route = Diagnostic::new(ReasonCode::NetNoRoute, Component::RoutingEngine);
    let (_, action) = install(
        &mut e,
        stage,
        ArmEvent::Assembled(Err(AssembleError::Route(no_route))),
    );
    assert!(matches!(
        action,
        ArmAction::SetRuleset {
            ruleset: Ruleset::Blocked,
            ..
        }
    ));
}

#[test]
fn a_teardown_denies_before_it_destroys() {
    let mut e = Enforcement::default();
    e.handle = Some(TunnelHandle(4));
    let (stage, action) = teardown(&mut e);
    assert_eq!(action, TeardownAction::LinkDown(TunnelHandle(4)));
    let (stage, publish, action) = teardown_step(&mut e, stage, Err(refused()));
    assert!(publish.is_some());
    assert!(matches!(action, TeardownAction::Deny { .. }));
    let (stage, publish, action) = teardown_step(&mut e, stage, Ok(()));
    assert!(publish.is_none());
    assert_eq!(action, TeardownAction::Destroy(TunnelHandle(4)));
    let (_, _, action) = teardown_step(&mut e, stage, Ok(()));
    assert_eq!(action, TeardownAction::Done);
    assert!(!e.has_interface());
    assert_eq!(e.desired(), Ruleset::Blocked);
}

#[test]
fn a_denied_resolver_and_single_host_routes() {
    let policy = denied_dns_policy();
    assert_eq!(policy.dnspolicy_id, "twinvpn/default-denied");
    assert_eq!(policy.version, 0);
    assert_eq!(policy.mode, DNS_MODE_OFF);
    assert!(policy.servers_v4.is_empty() && policy.servers_v6.is_empty());
    assert_eq!(policy.servers_declared_v4, Some(true));
    assert_eq!(policy.servers_declared_v6, Some(true));
    assert!(policy.split_domains.is_empty() && policy.search_domains.is_empty());
    assert_eq!(policy.block_fallback_v4, Some(true));
    assert_eq!(policy.block_fallback_v6, Some(true));
    assert!(!policy.dnssec_validate && !policy.upstream_dot);
    assert_eq!(policy.not_after_ms, 0);
    let prefixes = host_prefixes(&vec![overlay(1), overlay(2)]);
    assert_eq!(prefixes.v4.len(), 2);
    assert_eq!(prefixes.v4[0].prefix_len(), 32);
    assert_eq!(prefixes.v6[1].prefix_len(), 128);
}

#[test]
fn arming_again_reuses_an_interface_that_was_created() {
    let mut e = Enforcement::default();
    let stage = begun(&mut e);
    let (stage, _) = install(&mut e, stage, ArmEvent::Assembled(Ok(())));
    let (stage, _) = install(&mut e, stage, ArmEvent::Did(Ok(())));
    let (stage, _) = install(&mut e, stage, ArmEvent::Created(Ok(TunnelHandle(4))));
    let (_, action) = install(&mut e, stage, ArmEvent::Did(Err(refused())));
    assert!(matches!(action, ArmAction::SetRuleset { .. }));
    assert!(e.has_interface());
    let (_, action) = install(
        &mut e,
        ArmStage::Denying { generation: 2 },
        ArmEvent::Did(Ok(())),
    );
    assert_eq!(action, ArmAction::LinkUp(TunnelHandle(4)));
}
