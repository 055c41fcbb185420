//! Pairing: how a ceremony begins and completes, how its key is retried, and how it ends.

use vstd::prelude::*;

use crate::dispatch::{Outcome, Submission};
use crate::pairing::enrol::{approver_names, approvers_of, report_of, DelegationVerdict};
use crate::pairing::ops::{answers_state, begins_pairing, cancels, pairs_on, tells_status,
    window_checked, BeginReply, BeginRequest, BeginRun, BeginStage, BeginStep, CancelStep,
    IdentityFacts};
use crate::pairing::{CeremoniesModel, CeremonyType, OfferLimits, PairingCeremonies,
    PairingEnrolment, PairingState};
use crate::reason::{Diagnostic, ReasonCode};

verus! {

/// What is known of this device fits: its key names it.
pub open spec fn is_this_device(f: IdentityFacts) -> bool {
    &&& f.device_id@.len() == 32
    &&& f.identity_id@.len() == 32
    &&& f.derived_identity_id@ == f.identity_id@
    &&& f.generation == 0 ==> f.derived_device_id@ == f.device_id@
}

/// A pairing that was not begun under its key, by a device that is enrolled, goes as far as
/// the ledger where nothing refuses: it asks for leave, for who this device is, whether it
/// was revoked, for the time, for a secret and for the elapsed time, in that order; and asks
/// the ledger to begin the ceremony that the secret names, at that time. Until then nothing
/// has changed. The offer will end two minutes after the time that was read.
pub proof fn a_pairing_goes_as_far_as_the_ledger(
    c: PairingCeremonies,
    submission: Submission,
    facts: IdentityFacts,
    now_ms: u64,
    secret: [u8; 32],
    id: [u8; 16],
    now_secs: u64,
    s0: BeginStep,
    s1: BeginStep,
    s2: BeginStep,
    s3: BeginStep,
    s4: BeginStep,
    s5: BeginStep,
    s6: BeginStep,
    c0: PairingCeremonies,
    c1: PairingCeremonies,
    c2: PairingCeremonies,
    c3: PairingCeremonies,
    c4: PairingCeremonies,
    c5: PairingCeremonies,
    c6: PairingCeremonies,
)
    requires
        submission.params@.len() > 0,
        submission.params@[0] == 1,
        submission.idempotency_key is Some,
        !c@.begun.contains_key(submission.idempotency_key->0@),
        c.enrolment is Some,
        is_this_device(facts),
        begins_pairing(c, submission, Seq::empty(), c0, s0),
        s0 is Ask ==> pairs_on(c0, s0->Ask_0, BeginReply::Authorized(true), c1, s1),
        s1 is Ask ==> pairs_on(c1, s1->Ask_0, BeginReply::Identity(Some(facts)), c2, s2),
        s2 is Ask ==> pairs_on(c2, s2->Ask_0, BeginReply::Revoked(false), c3, s3),
        s3 is Ask ==> pairs_on(c3, s3->Ask_0, BeginReply::Wall(Some(now_ms)), c4, s4),
        s4 is Ask ==> pairs_on(c4, s4->Ask_0, BeginReply::Secret(Some((secret, id))), c5, s5),
        s5 is Ask ==> pairs_on(c5, s5->Ask_0, BeginReply::Elapsed(now_secs), c6, s6),
    ensures
        s0 matches BeginStep::Ask(_, r) && r == BeginRequest::Authorize,
        s1 matches BeginStep::Ask(_, r) && r == BeginRequest::Identity,
        s2 matches BeginStep::Ask(_, r) && (r matches BeginRequest::Revoked {
            device_id,
            identity_id,
        } && device_id@ == facts.device_id@ && identity_id@ == facts.identity_id@),
        s3 matches BeginStep::Ask(_, r) && r == BeginRequest::Wall,
        s4 matches BeginStep::Ask(_, r) && r == BeginRequest::Secret,
        s5 matches BeginStep::Ask(_, r) && r == BeginRequest::Elapsed,
        s6 matches BeginStep::Ask(run, r) && r == (BeginRequest::LedgerBegin {
            pairing_id: id,
            method: CeremonyType::Qr,
            now_secs,
        }) && run.stage == BeginStage::Ledger && run.pairing_id == id && run.key@
            == submission.idempotency_key->0@ && run.parts.secret == secret
            && run.parts.cose_key@ == c.enrolment->0.ik_pub_cose@ && run.parts.hint
            == c.enrolment->0.rendezvous_hint && run.parts.generation == facts.generation
            && run.parts.device_id@ == facts.device_id@ && run.parts.identity_id@
            == facts.identity_id@ && (now_ms <= u64::MAX - 120_000 ==> run.parts.not_after_ms
            == now_ms + 120_000),
        c6@ == c@,
        c6.enrolment == c.enrolment,
        c6.tk_public == c.tk_public,
{
    assert(c@.expired(Seq::empty()) == c@);
}

/// A pairing that the ledger took completes where nothing refuses: with this device's tunnel
/// key, which is made once and kept, a key binding is written, signed by the key of this
/// device's generation and assembled, and the offer is built from it. Then, and only then,
/// the ceremony is on record under its key, its offer is in flight until its end, and the
/// caller, and nobody else, is told its identifier and the offer.
pub proof fn a_pairing_that_the_ledger_took_completes(
    c: PairingCeremonies,
    run: BeginRun,
    key: [u8; 32],
    unsigned: Vec<u8>,
    signature: Vec<u8>,
    binding: Vec<u8>,
    offer: Vec<u8>,
    s0: BeginStep,
    s1: BeginStep,
    s2: BeginStep,
    s3: BeginStep,
    s4: BeginStep,
    s5: BeginStep,
    c0: PairingCeremonies,
    c1: PairingCeremonies,
    c2: PairingCeremonies,
    c3: PairingCeremonies,
    c4: PairingCeremonies,
    c5: PairingCeremonies,
)
    requires
        run.stage == BeginStage::Ledger,
        c.tk_public is None,
        pairs_on(c, run, BeginReply::Begun(true), c0, s0),
        s0 is Ask ==> pairs_on(c0, s0->Ask_0, BeginReply::TunnelKey(Some(key)), c1, s1),
        s1 is Ask ==> pairs_on(c1, s1->Ask_0, BeginReply::Octets(Some(unsigned)), c2, s2),
        s2 is Ask ==> pairs_on(c2, s2->Ask_0, BeginReply::Octets(Some(signature)), c3, s3),
        s3 is Ask ==> pairs_on(c3, s3->Ask_0, BeginReply::Octets(Some(binding)), c4, s4),
        s4 is Ask ==> pairs_on(c4, s4->Ask_0, BeginReply::Built(Ok(Some(offer))), c5, s5),
    ensures
        s0 matches BeginStep::Ask(_, r) && r == BeginRequest::TunnelKey,
        s1 matches BeginStep::Ask(_, r) && r == (BeginRequest::Emit {
            device_id: run.parts.device_id,
            identity_id: run.parts.identity_id,
            tk_public: key,
            tk_generation: 1,
            not_after_ms: run.parts.not_after_ms,
        }),
        s2 matches BeginStep::Ask(_, r) && r == (BeginRequest::Sign {
            generation: run.parts.generation,
            to_be_signed: unsigned,
        }),
        s3 matches BeginStep::Ask(_, r) && r == (BeginRequest::Assemble { signature }),
        s4 matches BeginStep::Ask(_, r) && r == (BeginRequest::Build { tk_public: key, binding }),
        c4@ == c@,
        c1.tk_public == Some(key),
        c5.tk_public == Some(key),
        c5@.begun == c@.begun.insert(run.key@, run.pairing_id),
        c5@.offers.contains_key(run.pairing_id@),
        c5@.offers[run.pairing_id@].octets == Some(offer@),
        c5@.offers[run.pairing_id@].not_after_ms == run.parts.not_after_ms,
        c5@.offers.remove(run.pairing_id@) == c@.offers.remove(run.pairing_id@),
        s5 matches BeginStep::Done { result: Ok(outcome), burn: None } && outcome.result@
            == run.pairing_id@ && outcome.effects > 0 && (outcome.response matches Some(told)
            && told@ == run.pairing_id@ + offer@),
{
    assert(c5@.offers.remove(run.pairing_id@) =~= c@.offers.remove(run.pairing_id@));
}

/// A device that has its tunnel key does not make another.
pub proof fn a_tunnel_key_is_made_once(
    c: PairingCeremonies,
    run: BeginRun,
    key: [u8; 32],
    after: PairingCeremonies,
    step: BeginStep,
)
    requires
        run.stage == BeginStage::Ledger,
        c.tk_public == Some(key),
        pairs_on(c, run, BeginReply::Begun(true), after, step),
    ensures
        step matches BeginStep::Ask(_, r) && (r matches BeginRequest::Emit { tk_public, .. }
            && tk_public == key),
        after == c,
{
}

/// A retry under a key that began a ceremony is told that ceremony's identifier, and its
/// offer while that is in flight; it begins nothing and asks for nothing, whatever else it
/// carries.
pub proof fn a_retry_is_told_its_ceremony(
    c: PairingCeremonies,
    submission: Submission,
    after: PairingCeremonies,
    step: BeginStep,
)
    requires
        submission.params@.len() > 0,
        1 <= submission.params@[0] <= 2,
        submission.idempotency_key is Some,
        c@.begun.contains_key(submission.idempotency_key->0@),
        begins_pairing(c, submission, Seq::empty(), after, step),
    ensures
        after@ == c@,
        ({
            let id = c@.begun[submission.idempotency_key->0@];
            step matches BeginStep::Done { result: Ok(outcome), burn: None } && outcome.result@
                == id@ && outcome.effects > 0 && (c@.offers.contains_key(id@)
                && c@.offers[id@].octets is Some ==> (outcome.response matches Some(told) && told@
                == id@ + c@.offers[id@].octets->0)) && (!c@.offers.contains_key(id@)
                ==> outcome.response is None)
        }),
{
    assert(c@.expired(Seq::empty()) == c@);
}

/// What keeps a pairing from beginning has a name of its own: no ceremony or no key that
/// makes a retry the same, a code that a human types, which is not performed here, and no
/// enrolment.
pub proof fn a_pairing_that_cannot_begin_is_named(
    c: PairingCeremonies,
    submission: Submission,
    stale: Seq<[u8; 16]>,
    after: PairingCeremonies,
    step: BeginStep,
)
    requires
        begins_pairing(c, submission, stale, after, step),
    ensures
        submission.idempotency_key is None || submission.params@.len() == 0
            || submission.params@[0] == 0 || submission.params@[0] > 2 ==> refused(
            step,
            ReasonCode::ProtoMalformedMessage,
        ) && after == c,
        submission.idempotency_key is Some && submission.params@.len() > 0 && !c@.begun.contains_key(
            submission.idempotency_key->0@,
        ) ==> {
            &&& submission.params@[0] == 2 ==> refused(step, ReasonCode::ProtoCapabilityMissing)
            &&& submission.params@[0] == 1 && c.enrolment is None ==> refused(
                step,
                ReasonCode::AuthIdentityMissing,
            )
        },
        after@.begun == c@.begun,
{
}

/// The step ends with this code, and nothing is to be burned.
pub open spec fn refused(step: BeginStep, code: ReasonCode) -> bool {
    step matches BeginStep::Done { result: Err(d), burn: None } && d.code == code
}

/// The step ends with this code, and the ceremony is to be burned.
pub open spec fn burned(step: BeginStep, code: ReasonCode, id: [u8; 16]) -> bool {
    step matches BeginStep::Done { result: Err(d), burn: Some(burn) } && d.code == code && burn == id
}

/// What refuses a pairing on its way has a name of its own. Before the ledger took the
/// ceremony nothing is to be burned; from then on whatever keeps it from completing has it
/// burned. Nothing that is refused is put on record.
pub proof fn what_refuses_a_pairing_is_named(
    c: PairingCeremonies,
    run: BeginRun,
    reply: BeginReply,
    after: PairingCeremonies,
    step: BeginStep,
)
    requires
        crate::pairing::ops::reply_fits(run.stage, reply),
        pairs_on(c, run, reply, after, step),
    ensures
        run.stage == BeginStage::Authorizing && reply == BeginReply::Authorized(false) ==> refused(
            step,
            ReasonCode::AuthPairingNotAuthorized,
        ),
        run.stage == BeginStage::Identifying ==> {
            &&& reply matches BeginReply::Identity(None) ==> refused(
                step,
                ReasonCode::AuthKeyUnavailable,
            )
            &&& reply matches BeginReply::Identity(Some(f)) ==> {
                &&& f.derived_identity_id@ != f.identity_id@ || f.generation == 0
                    && f.derived_device_id@ != f.device_id@ ==> refused(
                    step,
                    ReasonCode::AuthIdentityMismatch,
                )
                &&& step is Ask ==> is_this_device(f)
            }
        },
        run.stage == BeginStage::Revocation && reply == BeginReply::Revoked(true) ==> refused(
            step,
            ReasonCode::AuthDeviceRevoked,
        ),
        run.stage == BeginStage::Clock && (reply matches BeginReply::Wall(None)) ==> refused(
            step,
            ReasonCode::AuthClockImplausible,
        ),
        run.stage == BeginStage::Entropy && (reply matches BeginReply::Secret(None)) ==> refused(
            step,
            ReasonCode::AuthKeyUnavailable,
        ),
        run.stage == BeginStage::Ledger && reply == BeginReply::Begun(false) ==> refused(
            step,
            ReasonCode::AuthPairingExpired,
        ),
        run.stage == BeginStage::TunnelKey && (reply matches BeginReply::TunnelKey(None)) ==> burned(
            step,
            ReasonCode::AuthKeyUnavailable,
            run.pairing_id,
        ),
        run.stage == BeginStage::Emitting && (reply matches BeginReply::Octets(None)) ==> burned(
            step,
            ReasonCode::AuthBindingInvalid,
            run.pairing_id,
        ),
        run.stage == BeginStage::Signing && (reply matches BeginReply::Octets(None)) ==> burned(
            step,
            ReasonCode::AuthKeyUnavailable,
            run.pairing_id,
        ),
        run.stage == BeginStage::Assembling && (reply matches BeginReply::Octets(None)) ==> burned(
            step,
            ReasonCode::AuthBindingInvalid,
            run.pairing_id,
        ),
        run.stage == BeginStage::Building ==> (reply matches BeginReply::Built(Err(code)) ==> burned(
            step,
            code,
            run.pairing_id,
        ) && after == c),
        run.stage != BeginStage::Building ==> after@ == c@,
{
}

/// An offer that is in flight is cancelled: the ledger is asked whether its window has
/// passed, the offer is gone either way, and the ceremony is burned and answered as the
/// ledger says it ended, or refused as expired. Its key stays with it, so that a retry begins
/// no second one. A ceremony that ended keeps its end, and one that was never begun here is
/// refused.
pub proof fn a_cancelled_pairing_is_gone(
    m: CeremoniesModel,
    submission: Submission,
    id: [u8; 16],
    prior: Option<PairingState>,
    first: CancelStep,
    expired: bool,
    after: CeremoniesModel,
    second: CancelStep,
    again: Result<Outcome, Diagnostic>,
    now: Option<u64>,
)
    requires
        submission.params@ == id@,
        cancels(m, submission, prior, first),
        window_checked(m, id, expired, after, second),
        tells_status(after, submission, None, now, again),
    ensures
        prior is None && m.offers.contains_key(id@) ==> (first matches CancelStep::CheckWindow(asked)
            && asked@ == id@),
        prior is None && !m.offers.contains_key(id@) ==> (first matches CancelStep::Done(Err(d))
            && d.code == ReasonCode::AuthPairingNotAuthorized),
        prior matches Some(state) ==> answers_state(first, state, 1),
        !after.offers.contains_key(id@),
        after.begun == m.begun,
        forall|other: Seq<u8>| #[trigger]
            m.offers.contains_key(other) && other != id@ ==> after.offers.contains_key(other)
                && after.offers[other] == m.offers[other],
        expired ==> (second matches CancelStep::Done(Err(d)) && d.code
            == ReasonCode::AuthPairingExpired),
        !expired ==> second == CancelStep::Burn(id),
        again matches Err(d) && d.code == ReasonCode::AuthPairingNotAuthorized,
{
}

/// A pairing that is in flight reads as pending until its end and as expired from then on,
/// and while the clock cannot be used; with five runs that may still fail. One that ended
/// reads as it ended, with none.
pub proof fn a_pairing_reads_as_it_stands(
    m: CeremoniesModel,
    submission: Submission,
    prior: Option<PairingState>,
    now: Option<u64>,
    r: Result<Outcome, Diagnostic>,
)
    requires
        submission.params@.len() == 16,
        tells_status(m, submission, prior, now, r),
    ensures
        prior is None && m.offers.contains_key(submission.params@) ==> {
            let pending = now is Some && now->0 < m.offers[submission.params@].not_after_ms;
            r matches Ok(outcome) && outcome.result@.len() == 2 && outcome.result@[0] == (
            if pending {
                1u8
            } else {
                3u8
            }) && outcome.result@[1] == 5 && outcome.effects > 0 && outcome.response is None
        },
        prior matches Some(state) ==> (r matches Ok(outcome) && outcome.result@.len() == 2
            && outcome.result@[0] == (match state {
            PairingState::Pending => 1u8,
            PairingState::Confirmed => 2,
            PairingState::Expired => 3,
            PairingState::Aborted => 4,
            PairingState::Rejected => 5,
        }) && outcome.result@[1] == 0),
{
}

/// Under a root that is pinned every delegation that may enrol names an approver; under none
/// no one is an approver and nothing is installed, whatever was verified.
pub proof fn a_delegation_approves_under_a_pinned_root(verdicts: Seq<DelegationVerdict>, i: int)
    requires
        0 <= i < verdicts.len(),
    ensures
        verdicts[i].enrol_osk_id matches Some(name) ==> approvers_of(true, verdicts).contains(name@),
        approvers_of(false, verdicts).len() == 0,
        report_of(false, verdicts).delegations_installed == 0,
        report_of(false, verdicts).approvers == 0,
        !report_of(false, verdicts).anchor_pinned && report_of(true, verdicts).anchor_pinned,
    decreases verdicts.len(),
{
    let front = verdicts.drop_last();
    if let Some(name) = verdicts[i].enrol_osk_id {
        let all = approver_names(verdicts);
        if i < front.len() {
            a_delegation_approves_under_a_pinned_root(front, i);
            assert(front[i] == verdicts[i]);
            let some = approver_names(front);
            let j = choose|j: int| 0 <= j < some.len() && some[j] == name@;
            assert(all[j] == name@);
        } else {
            assert(all[all.len() - 1] == name@);
        }
    }
}

/// A record that a ceremony reads has an approver, a key and a hint that fit: without an
/// approver it is refused as not authorized, and else for what does not fit.
pub proof fn an_enrolment_needs_an_approver_and_a_key(
    approvers: Seq<String>,
    key: Seq<u8>,
    hint: Seq<char>,
    limits: OfferLimits,
)
    requires
        vstd::utf8::encode_utf8(hint).len() <= usize::MAX,
    ensures
        PairingEnrolment::refused(approvers, key, hint, limits) is None <==> approvers.len() > 0
            && 0 < key.len() <= limits.max_cose_key_bytes && vstd::utf8::encode_utf8(hint).len()
            <= limits.max_hint_bytes,
        approvers.len() == 0 ==> PairingEnrolment::refused(approvers, key, hint, limits) == Some(
            ReasonCode::AuthPairingNotAuthorized,
        ),
        approvers.len() > 0 && key.len() == 0 ==> PairingEnrolment::refused(
            approvers,
            key,
            hint,
            limits,
        ) == Some(ReasonCode::AuthIdentityMissing),
{
}

} // verus!
