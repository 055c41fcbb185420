use twinvpn_core::dispatch::{CoreCommand, Submission};
use twinvpn_core::pairing::enrol::{
    enrol, ik_pub_cose_for, pin_anchor, DelegationVerdict, IdentityPublic, OwnerMaterial,
};
use twinvpn_core::pairing::ops::{
    begin, begin_step, cancel, cancel_burned, cancel_checked, pairing_id_from, status, BeginReply,
    BeginRequest, BeginRun, BeginStep, CancelStep, IdentityFacts,
};
use twinvpn_core::pairing::{
    state_byte, Ceremony, CeremonyType, Offer, OfferLimits, PairingCeremonies, PairingEnrolment,
    PairingState, CEREMONY_EXPIRY_MS, MAX_ATTEMPTS,
};
use twinvpn_core::reason::ReasonCode;

fn limits() -> OfferLimits {
    OfferLimits {
        max_cose_key_bytes: 64,
        max_hint_bytes: 16,
    }
}

fn enrolment() -> PairingEnrolment {
    match PairingEnrolment::new(
        vec!["osk-1".to_owned()],
        vec![1; 32],
        "hint".to_owned(),
        limits(),
    ) {
        Ok(e) => e,
        Err(d) => panic!("enrols, got {d:?}"),
    }
}

fn refused(
    approvers: Vec<String>,
    key: Vec<u8>,
    hint: &str,
) -> ReasonCode {
    match PairingEnrolment::new(approvers, key, hint.to_owned(), limits()) {
        Ok(_) => panic!("refused"),
        Err(d) => d.code(),
    }
}

#[test]
fn an_enrolment_that_could_never_pair_is_refused_once() {
    let approvers = vec!["osk-1".to_owned()];
    assert_eq!(
        refused(Vec::new(), vec![1], ""),
        ReasonCode::AuthPairingNotAuthorized
    );
    assert_eq!(
        refused(approvers, Vec::new(), ""),
        ReasonCode::AuthIdentityMissing
    );
    assert_eq!(
        refused(vec!["osk-1".to_owned()], vec![0; 65], ""),
        ReasonCode::AuthIdentityMissing
    );
    assert_eq!(
        refused(vec!["osk-1".to_owned()], vec![1], "seventeen octets!"),
        ReasonCode::ProtoSizeExceeded
    );
    assert_eq!(enrolment().approvers(), &vec!["osk-1".to_owned()]);
    assert_eq!(enrolment().rendezvous_hint(), "hint");
    assert_eq!(enrolment().ik_pub_cose(), &vec![1; 32]);
}

#[test]
fn a_ceremony_is_selected_by_one_octet() {
    for c in [Ceremony::ConfidentialChannel, Ceremony::HumanCode] {
        assert_eq!(Ceremony::from_params(&[c.to_params()]), Some(c));
    }
    assert_eq!(Ceremony::from_params(&[]), None);
    assert_eq!(Ceremony::from_params(&[0]), None);
    assert_eq!(
        Ceremony::ConfidentialChannel.recorded(),
        CeremonyType::Qr
    );
}

fn submission(key: Option<Vec<u8>>) -> Submission {
    let mut s = Submission::bare(CoreCommand::PairBegin);
    s.params = vec![Ceremony::ConfidentialChannel.to_params()];
    s.idempotency_key = key;
    s
}

fn asked(step: BeginStep) -> (BeginRun, BeginRequest) {
    match step {
        BeginStep::Ask(run, request) => (run, request),
        BeginStep::Done { .. } => panic!("asks"),
    }
}

fn ended(step: BeginStep) -> (Result<Vec<u8>, ReasonCode>, Option<[u8; 16]>) {
    match step {
        BeginStep::Ask(_, _) => panic!("over"),
        BeginStep::Done { result, burn } => (
            match result {
                Ok(outcome) => Ok(outcome.result),
                Err(d) => Err(d.code()),
            },
            burn,
        ),
    }
}

fn facts() -> IdentityFacts {
    IdentityFacts {
        identity_id: vec![3; 32],
        device_id: vec![4; 32],
        generation: 0,
        derived_identity_id: vec![3; 32],
        derived_device_id: vec![4; 32],
    }
}

/// Begins a ceremony up to the point where the offer is built.
fn building(c: &mut PairingCeremonies, id: [u8; 16]) -> BeginRun {
    let (run, request) = asked(begin(c, &submission(Some(vec![7])), &Vec::new()));
    assert!(matches!(request, BeginRequest::Authorize));
    let (run, request) = asked(begin_step(c, run, BeginReply::Authorized(true)));
    assert!(matches!(request, BeginRequest::Identity));
    let (run, request) = asked(begin_step(c, run, BeginReply::Identity(Some(facts()))));
    assert!(matches!(request, BeginRequest::Revoked { .. }));
    let (run, request) = asked(begin_step(c, run, BeginReply::Revoked(false)));
    assert!(matches!(request, BeginRequest::Wall));
    let (run, request) = asked(begin_step(c, run, BeginReply::Wall(Some(1_000))));
    assert!(matches!(request, BeginRequest::Secret));
    let (run, request) = asked(begin_step(c, run, BeginReply::Secret(Some(([8; 32], id)))));
    assert!(matches!(request, BeginRequest::Elapsed));
    let (run, request) = asked(begin_step(c, run, BeginReply::Elapsed(12)));
    assert!(matches!(request, BeginRequest::LedgerBegin { now_secs: 12, .. }));
    let (run, request) = asked(begin_step(c, run, BeginReply::Begun(true)));
    assert!(matches!(request, BeginRequest::TunnelKey));
    let (run, request) = asked(begin_step(c, run, BeginReply::TunnelKey(Some([6; 32]))));
    match request {
        BeginRequest::Emit { not_after_ms, .. } => {
            assert_eq!(not_after_ms, 1_000 + CEREMONY_EXPIRY_MS);
        }
        _ => panic!("emits"),
    }
    let (run, request) = asked(begin_step(c, run, BeginReply::Octets(Some(vec![1]))));
    assert!(matches!(request, BeginRequest::Sign { .. }));
    let (run, request) = asked(begin_step(c, run, BeginReply::Octets(Some(vec![2]))));
    assert!(matches!(request, BeginRequest::Assemble { .. }));
    let (run, request) = asked(begin_step(c, run, BeginReply::Octets(Some(vec![3]))));
    assert!(matches!(request, BeginRequest::Build { .. }));
    run
}

fn begun(c: &mut PairingCeremonies, id: [u8; 16]) {
    let run = building(c, id);
    let step = begin_step(c, run, BeginReply::Built(Ok(Some(vec![0xee; 4]))));
    assert_eq!(ended(step), (Ok(id.to_vec()), None));
}

fn ceremonies() -> PairingCeremonies {
    let mut c = PairingCeremonies::new();
    c.install(enrolment());
    c
}

#[test]
fn a_ceremony_begins_once_for_each_key() {
    let mut c = ceremonies();
    begun(&mut c, [1; 16]);
    assert_eq!(c.begun_count(), 1);
    let offer = c.offer(&[1; 16]).expect("in flight");
    assert_eq!(offer.not_after_ms, 1_000 + CEREMONY_EXPIRY_MS);
    match begin(&mut c, &submission(Some(vec![7])), &Vec::new()) {
        BeginStep::Done {
            result: Ok(outcome),
            burn: None,
        } => {
            assert_eq!(outcome.result, vec![1; 16]);
            assert_eq!(
                outcome.response,
                Some([vec![1; 16], vec![0xee; 4]].concat())
            );
        }
        _ => panic!("a retry is told the original"),
    }
    assert_eq!(c.begun_count(), 1);
}

#[test]
fn a_begin_is_refused_for_what_it_lacks() {
    let mut bare = PairingCeremonies::new();
    let (result, _) = ended(begin(&mut bare, &submission(Some(vec![7])), &Vec::new()));
    assert_eq!(result, Err(ReasonCode::AuthIdentityMissing));

    let mut c = ceremonies();
    let mut malformed = submission(Some(vec![7]));
    malformed.params = vec![0];
    let (result, _) = ended(begin(&mut c, &malformed, &Vec::new()));
    assert_eq!(result, Err(ReasonCode::ProtoMalformedMessage));

    let (run, _) = asked(begin(&mut c, &submission(Some(vec![7])), &Vec::new()));
    let (result, burn) = ended(begin_step(&mut c, run, BeginReply::Authorized(false)));
    assert_eq!(result, Err(ReasonCode::AuthPairingNotAuthorized));
    assert_eq!(burn, None);
}

#[test]
fn an_offer_that_cannot_be_built_burns_its_ceremony() {
    let mut c = ceremonies();
    let run = building(&mut c, [2; 16]);
    let (result, burn) = ended(begin_step(
        &mut c,
        run,
        BeginReply::Built(Err(ReasonCode::ProtoSizeExceeded)),
    ));
    assert!(result.is_err());
    assert_eq!(burn, Some([2; 16]));
    assert!(c.offer(&[2; 16]).is_none());
}

fn named(op: CoreCommand, id: &[u8]) -> Submission {
    let mut s = Submission::bare(op);
    s.params = id.to_vec();
    s
}

#[test]
fn a_cancel_takes_the_offer_and_burns_the_ceremony() {
    let mut c = ceremonies();
    begun(&mut c, [1; 16]);
    let request = named(CoreCommand::PairCancel, &[1; 16]);
    let id = match cancel(&c, &request, None) {
        CancelStep::CheckWindow(id) => id,
        _ => panic!("checks the window"),
    };
    match cancel_checked(&mut c, id, false) {
        CancelStep::Burn(burned) => assert_eq!(burned, [1; 16]),
        _ => panic!("burns"),
    }
    assert!(c.offer(&[1; 16]).is_none());
    match cancel_burned(PairingState::Aborted) {
        CancelStep::Done(Ok(outcome)) => {
            assert_eq!(outcome.result, vec![state_byte(PairingState::Aborted)]);
            assert_eq!(outcome.effects, 2);
        }
        _ => panic!("over"),
    }
    match cancel(&c, &request, None) {
        CancelStep::Done(Err(d)) => assert_eq!(d.code(), ReasonCode::AuthPairingNotAuthorized),
        _ => panic!("refused"),
    }
    match cancel_checked(&mut c, [1; 16], true) {
        CancelStep::Done(Err(d)) => assert_eq!(d.code(), ReasonCode::AuthPairingExpired),
        _ => panic!("expired"),
    }
}

#[test]
fn a_status_reads_and_changes_nothing() {
    let mut c = ceremonies();
    begun(&mut c, [1; 16]);
    let request = named(CoreCommand::PairStatus, &[1; 16]);
    let read = |now: Option<u64>| match status(&c, &request, None, now) {
        Ok(outcome) => outcome.result,
        Err(d) => panic!("reads, got {d:?}"),
    };
    assert_eq!(
        read(Some(1_000)),
        vec![state_byte(PairingState::Pending), MAX_ATTEMPTS]
    );
    assert_eq!(
        read(Some(1_000 + CEREMONY_EXPIRY_MS)),
        vec![state_byte(PairingState::Expired), MAX_ATTEMPTS]
    );
    assert_eq!(
        read(None),
        vec![state_byte(PairingState::Expired), MAX_ATTEMPTS]
    );
    let unknown = named(CoreCommand::PairStatus, &[9; 16]);
    assert_eq!(
        status(&c, &unknown, None, None).err().expect("unknown").code(),
        ReasonCode::AuthPairingNotAuthorized
    );
    let short = named(CoreCommand::PairStatus, &[9; 3]);
    assert_eq!(
        pairing_id_from(&short).expect_err("short").code(),
        ReasonCode::ProtoMalformedMessage
    );
}

#[test]
fn expiry_takes_exactly_the_stale_offers() {
    let mut c = ceremonies();
    begun(&mut c, [1; 16]);
    c.expire_stale(&vec![[2; 16]]);
    assert!(c.offer(&[1; 16]).is_some());
    c.expire_stale(&vec![[1; 16]]);
    assert!(c.offer(&[1; 16]).is_none());
    assert_eq!(c.begun_count(), 1);
}

#[test]
fn only_a_delegation_that_may_enrol_approves() {
    let material = OwnerMaterial {
        ork_pub_cose: vec![1],
        anchor: vec![2],
        delegations: vec![vec![3], vec![4], vec![5]],
        rendezvous_hint: "hint".to_owned(),
    };
    let verdicts = vec![
        DelegationVerdict {
            installed: true,
            enrol_osk_id: Some("osk-a".to_owned()),
        },
        DelegationVerdict {
            installed: true,
            enrol_osk_id: None,
        },
        DelegationVerdict {
            installed: false,
            enrol_osk_id: None,
        },
    ];
    let (enrolment, report) = match material.into_enrolment(vec![9], true, &verdicts, limits()) {
        Ok(made) => made,
        Err(d) => panic!("enrols, got {d:?}"),
    };
    assert_eq!(enrolment.approvers(), &vec!["osk-a".to_owned()]);
    assert!(report.anchor_pinned);
    assert_eq!(report.delegations_installed, 2);
    assert_eq!(report.delegations_rejected, 1);
    assert_eq!(report.approvers, 1);
}

#[test]
fn an_anchor_is_pinned_only_under_its_own_pin() {
    assert!(pin_anchor(true, &Some(vec![1]), &[1]));
    assert!(!pin_anchor(true, &Some(vec![2]), &[1]));
    assert!(!pin_anchor(false, &Some(vec![1]), &[1]));
    assert!(!pin_anchor(true, &None, &[1]));
}

#[test]
fn a_key_is_the_one_whose_digest_names_the_device() {
    let identity = IdentityPublic {
        public_key: vec![1],
        identity_id: vec![9],
    };
    assert_eq!(ik_pub_cose_for(&identity, &[9], &None), Some(vec![1]));
    assert_eq!(
        ik_pub_cose_for(&identity, &[8], &Some((vec![2], vec![9]))),
        Some(vec![2])
    );
    assert_eq!(
        ik_pub_cose_for(&identity, &[8], &Some((vec![2], vec![7]))),
        None
    );
    assert_eq!(
        enrol(&None, &[9], &None).expect_err("no element").code(),
        ReasonCode::AuthKeyUnavailable
    );
    assert_eq!(
        enrol(&Some(identity), &[8], &None)
            .expect_err("no reading")
            .code(),
        ReasonCode::AuthIdentityMissing
    );
}

#[test]
fn under_no_pinned_root_there_is_no_approver() {
    let material = OwnerMaterial {
        ork_pub_cose: vec![1],
        anchor: vec![2],
        delegations: vec![vec![3]],
        rendezvous_hint: "hint".to_owned(),
    };
    let verdicts = vec![DelegationVerdict {
        installed: true,
        enrol_osk_id: Some("osk-1".to_owned()),
    }];
    match material.into_enrolment(vec![9], false, &verdicts, limits()) {
        Ok((enrolment, report)) => {
            assert!(enrolment.approvers().is_empty());
            assert_eq!(report.delegations_rejected, 1);
            assert_eq!(report.delegations_installed, 0);
            assert_eq!(report.approvers, 0);
        }
        Err(d) => assert_eq!(d.code(), ReasonCode::AuthPairingNotAuthorized),
    }
}

#[test]
fn an_offer_is_overwritten_before_it_goes() {
    let mut offer = Offer {
        octets: Some(vec![0xee; 4]),
        not_after_ms: 9,
    };
    offer.erase();
    assert_eq!(offer.octets, Some(vec![0; 4]));
    assert_eq!(offer.not_after_ms, 0);
}
