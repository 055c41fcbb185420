//! The three pairing operations.
//!
//! Every check refuses with a registered code before the next one runs, and no path
//! reaches a partial success. Authorization comes first, then identity, then the
//! channel: an unauthorized device is refused before anything is signed for it.

use vstd::prelude::*;

use crate::dispatch::{Outcome, Submission};
use crate::octets;
use crate::pairing::{
    bare, ceremony_of, offers_without, refusal, state_byte, state_octet, CeremoniesModel, Ceremony, CeremonyType,
    Offer, OfferModel, PairingCeremonies, PairingState, CEREMONY_EXPIRY_MS, FIRST_TK_GENERATION,
    MAX_ATTEMPTS, PAIRING_ID_BYTES,
};
use crate::reason::{Diagnostic, ReasonCode};

verus! {

/// What an offer is built from.
pub struct BuildParts {
    /// The secret of the ceremony.
    pub secret: [u8; 32],
    /// This device's own key, encoded.
    pub cose_key: Vec<u8>,
    /// This device.
    pub device_id: [u8; 32],
    /// The digest of its key.
    pub identity_id: [u8; 32],
    /// Which generation of the identity key signs.
    pub generation: u32,
    /// When the offer ends, in milliseconds.
    pub not_after_ms: u64,
    /// Where a peer may look for this device.
    pub hint: String,
}

impl BuildParts {
    /// Overwrites the copy of the secret that is held here.
    pub fn forget_secret(&mut self)
        ensures
            *final(self) == (BuildParts { secret: final(self).secret, ..*old(self) }),
            final(self).secret@ == Seq::new(32, |i: int| 0u8),
    {
        self.secret = [0; 32];
        assert(self.secret@ =~= Seq::new(32, |i: int| 0u8));
    }
}

/// What a `pair.begin` waits for.
#[derive(Debug, Clone, Copy, PartialEq, Eq, Structural)]
pub enum BeginStage {
    /// Whether an approver may enrol.
    Authorizing,
    /// Who the element says this device is.
    Identifying,
    /// Whether this device was revoked.
    Revocation,
    /// The wall clock.
    Clock,
    /// Random octets.
    Entropy,
    /// The elapsed time.
    Elapsing,
    /// Whether the ledger takes the ceremony.
    Ledger,
    /// A tunnel key.
    TunnelKey,
    /// The octets of the key binding, to be signed.
    Emitting,
    /// The element's signature.
    Signing,
    /// The signed key binding.
    Assembling,
    /// The offer.
    Building,
}

/// A `pair.begin` under way.
pub struct BeginRun {
    /// What it waits for.
    pub stage: BeginStage,
    /// The key that makes a retry the same request.
    pub key: Vec<u8>,
    /// The ceremony.
    pub ceremony: Ceremony,
    /// The identifier of the ceremony; meaningless before it was derived.
    pub pairing_id: [u8; 16],
    /// What the offer is built from.
    pub parts: BuildParts,
}

/// What the element says of this device, and what its enrolled key hashes to.
pub struct IdentityFacts {
    /// The digest of the key, as the element reports it.
    pub identity_id: Vec<u8>,
    /// The device, as the element reports it.
    pub device_id: Vec<u8>,
    /// The generation of the identity key.
    pub generation: u32,
    /// The digest of the enrolled key.
    pub derived_identity_id: Vec<u8>,
    /// The device that the enrolled key would name.
    pub derived_device_id: Vec<u8>,
}

/// What came back to a `pair.begin`.
pub enum BeginReply {
    /// Whether an approver may enrol.
    Authorized(bool),
    /// Who the element says this device is, if it says so.
    Identity(Option<IdentityFacts>),
    /// Whether this device was revoked.
    Revoked(bool),
    /// The wall clock in milliseconds, where it can be used.
    Wall(Option<u64>),
    /// Random octets and the identifier that they derive.
    Secret(Option<([u8; 32], [u8; 16])>),
    /// The elapsed time, in seconds.
    Elapsed(u64),
    /// Whether the ledger took the ceremony.
    Begun(bool),
    /// The public half of a tunnel key.
    TunnelKey(Option<[u8; 32]>),
    /// The octets to be signed, the signature, or the signed key binding, by stage.
    Octets(Option<Vec<u8>>),
    /// The offer: its octets where it could be encoded; or the code it was refused
    /// with.
    Built(Result<Option<Vec<u8>>, ReasonCode>),
}

/// What a `pair.begin` asks for.
pub enum BeginRequest {
    /// Whether an approver may enrol.
    Authorize,
    /// Who the element says this device is, and what the enrolled key hashes to.
    Identity,
    /// Whether this device was revoked.
    Revoked {
        /// This device.
        device_id: [u8; 32],
        /// The digest of its key.
        identity_id: [u8; 32],
    },
    /// The wall clock.
    Wall,
    /// Random octets, from the platform's own source, and the identifier that they
    /// derive.
    Secret,
    /// The elapsed time: the ledger's windows run on it.
    Elapsed,
    /// The ledger's leave to begin.
    LedgerBegin {
        /// The identifier.
        pairing_id: [u8; 16],
        /// The method to record.
        method: CeremonyType,
        /// The elapsed time, in seconds.
        now_secs: u64,
    },
    /// A tunnel key.
    TunnelKey,
    /// The octets of the key binding, to be signed.
    Emit {
        /// This device.
        device_id: [u8; 32],
        /// The digest of its key.
        identity_id: [u8; 32],
        /// The public half of its tunnel key.
        tk_public: [u8; 32],
        /// The generation of the tunnel key.
        tk_generation: u64,
        /// When the binding ends, in milliseconds.
        not_after_ms: u64,
    },
    /// The element's signature.
    Sign {
        /// Which generation of the identity key signs.
        generation: u32,
        /// What is signed.
        to_be_signed: Vec<u8>,
    },
    /// The signed key binding.
    Assemble {
        /// The signature.
        signature: Vec<u8>,
    },
    /// The offer.
    Build {
        /// The public half of the tunnel key.
        tk_public: [u8; 32],
        /// The signed key binding.
        binding: Vec<u8>,
    },
}

/// What a `pair.begin` does next.
pub enum BeginStep {
    /// Ask.
    Ask(BeginRun, BeginRequest),
    /// It is over; and the identifier to burn in the ledger, where its ceremony can
    /// no longer complete.
    Done {
        /// What it produced.
        result: Result<Outcome, Diagnostic>,
        /// The identifier to burn.
        burn: Option<[u8; 16]>,
    },
}

/// The step ends with a bare refusal, and burns nothing.
pub open spec fn refuses(step: BeginStep, code: ReasonCode) -> bool {
    step == (BeginStep::Done { result: Err(bare(code)), burn: None })
}

/// The step ends with a bare refusal, and burns the ceremony's identifier.
pub open spec fn refuses_and_burns(step: BeginStep, code: ReasonCode, id: [u8; 16]) -> bool {
    step == (BeginStep::Done { result: Err(bare(code)), burn: Some(id) })
}

/// The step ends with the identifier as its body, these effects, and what the caller
/// is told in this state.
pub open spec fn answers(
    step: BeginStep,
    id: [u8; 16],
    effects: u32,
    m: CeremoniesModel,
) -> bool {
    &&& step matches BeginStep::Done { result: Ok(outcome), burn: None }
    &&& outcome.result@ == id@
    &&& outcome.effects == effects
    &&& match outcome.response {
        Some(body) => m.response(id) == Some(body@),
        None => m.response(id) is None,
    }
}

/// The reply answers what the stage waits for.
pub open spec fn reply_fits(stage: BeginStage, reply: BeginReply) -> bool {
    match stage {
        BeginStage::Authorizing => reply is Authorized,
        BeginStage::Identifying => reply is Identity,
        BeginStage::Revocation => reply is Revoked,
        BeginStage::Clock => reply is Wall,
        BeginStage::Entropy => reply is Secret,
        BeginStage::Elapsing => reply is Elapsed,
        BeginStage::Ledger => reply is Begun,
        BeginStage::TunnelKey => reply is TunnelKey,
        BeginStage::Emitting | BeginStage::Signing | BeginStage::Assembling => reply is Octets,
        BeginStage::Building => reply is Built,
    }
}

/// The run belongs to this state: nobody began a ceremony under its key since, and
/// past the tunnel key stage there is a tunnel key.
pub open spec fn run_fits(c: PairingCeremonies, run: BeginRun) -> bool {
    &&& !c@.begun.contains_key(run.key@)
    &&& run.stage is Emitting || run.stage is Signing || run.stage is Assembling || run.stage
        is Building ==> c.tk_public is Some
}

/// The identity that the element reports is the one that was enrolled: the key's
/// digest names it, and before any rotation names the device too.
pub open spec fn identity_matches(f: IdentityFacts) -> bool {
    &&& f.derived_identity_id@ == f.identity_id@
    &&& f.generation == 0 ==> f.derived_device_id@ == f.device_id@
}

/// When an offer that is made at `now_ms` ends.
pub open spec fn offer_end(now_ms: u64) -> u64 {
    if now_ms + CEREMONY_EXPIRY_MS > u64::MAX {
        u64::MAX
    } else {
        (now_ms + CEREMONY_EXPIRY_MS) as u64
    }
}

/// The request that follows once there is a tunnel key.
pub open spec fn emits(run: BeginRun, tk_public: [u8; 32]) -> BeginRequest {
    BeginRequest::Emit {
        device_id: run.parts.device_id,
        identity_id: run.parts.identity_id,
        tk_public,
        tk_generation: FIRST_TK_GENERATION,
        not_after_ms: run.parts.not_after_ms,
    }
}

/// How a `pair.begin` begins.
pub open spec fn begins_pairing(
    c: PairingCeremonies,
    submission: Submission,
    stale: Seq<[u8; 16]>,
    after: PairingCeremonies,
    step: BeginStep,
) -> bool {
    &&& after.enrolment == c.enrolment
    &&& after.tk_public == c.tk_public
    &&& match (ceremony_of(submission.params@), submission.idempotency_key) {
        (Some(ceremony), Some(key)) => {
            let left = c@.expired(stale);
            &&& after@ == left
            &&& if left.begun.contains_key(key@) {
                answers(step, left.begun[key@], 1, left)
            } else if ceremony == Ceremony::HumanCode {
                refuses(step, ReasonCode::ProtoCapabilityMissing)
            } else if c.enrolment is None {
                refuses(step, ReasonCode::AuthIdentityMissing)
            } else {
                &&& step matches BeginStep::Ask(run, request)
                &&& request == BeginRequest::Authorize
                &&& run.stage == BeginStage::Authorizing
                &&& run.key@ == key@
                &&& run.ceremony == ceremony
                &&& run.parts.cose_key@ == c.enrolment->0.ik_pub_cose@
                &&& run.parts.hint == c.enrolment->0.rendezvous_hint
                &&& run_fits(after, run)
            }
        },
        _ => after == c && refuses(step, ReasonCode::ProtoMalformedMessage),
    }
}

/// A `pair.begin` that is told which offers have expired. A retry under a key that
/// began a ceremony is told the original identifier, and no second ceremony begins.
pub fn begin(
    c: &mut PairingCeremonies,
    submission: &Submission,
    stale: &Vec<[u8; 16]>,
) -> (step: BeginStep)
    requires
        old(c).wf(),
    ensures
        final(c).wf(),
        begins_pairing(*old(c), *submission, stale@, *final(c), step),
{
    let ceremony = match Ceremony::from_params(submission.params.as_slice()) {
        Some(ceremony) => ceremony,
        None => {
            return BeginStep::Done {
                result: Err(refusal(ReasonCode::ProtoMalformedMessage)),
                burn: None,
            };
        },
    };
    let key = match &submission.idempotency_key {
        Some(key) => key,
        None => {
            return BeginStep::Done {
                result: Err(refusal(ReasonCode::ProtoMalformedMessage)),
                burn: None,
            };
        },
    };
    c.expire_stale(stale);
    if let Some(recorded) = c.begun.get(key.as_slice()) {
        let id: [u8; 16] = *recorded;
        let response = c.response_body(&id);
        let outcome = Outcome::new(octets::to_vec(id.as_slice()), 1).responding(response);
        return BeginStep::Done { result: Ok(outcome), burn: None };
    }
    if matches!(ceremony, Ceremony::HumanCode) {
        return BeginStep::Done {
            result: Err(refusal(ReasonCode::ProtoCapabilityMissing)),
            burn: None,
        };
    }
    let (cose_key, hint): (Vec<u8>, String) = match &c.enrolment {
        Some(enrolment) => (
            octets::to_vec(enrolment.ik_pub_cose.as_slice()),
            enrolment.rendezvous_hint.clone(),
        ),
        None => {
            return BeginStep::Done {
                result: Err(refusal(ReasonCode::AuthIdentityMissing)),
                burn: None,
            };
        },
    };
    let run = BeginRun {
        stage: BeginStage::Authorizing,
        key: octets::to_vec(key.as_slice()),
        ceremony,
        pairing_id: [0; 16],
        parts: BuildParts {
            secret: [0; 32],
            cose_key,
            device_id: [0; 32],
            identity_id: [0; 32],
            generation: 0,
            not_after_ms: 0,
            hint,
        },
    };
    BeginStep::Ask(run, BeginRequest::Authorize)
}

/// One decision of a `pair.begin`.
pub open spec fn pairs_on(
    c: PairingCeremonies,
    run: BeginRun,
    reply: BeginReply,
    after: PairingCeremonies,
    step: BeginStep,
) -> bool {
    &&& after.enrolment == c.enrolment
    &&& !(run.stage is TunnelKey || run.stage is Building) ==> after == c
    &&& match (run.stage, reply) {
        (BeginStage::Authorizing, BeginReply::Authorized(ok)) => if ok {
            step == BeginStep::Ask(
                (BeginRun { stage: BeginStage::Identifying, ..run }),
                BeginRequest::Identity,
            )
        } else {
            refuses(step, ReasonCode::AuthPairingNotAuthorized)
        },
        (BeginStage::Identifying, BeginReply::Identity(identity)) => match identity {
            None => refuses(step, ReasonCode::AuthKeyUnavailable),
            Some(f) => if !identity_matches(f) {
                refuses(step, ReasonCode::AuthIdentityMismatch)
            } else if f.device_id@.len() != 32 || f.identity_id@.len() != 32 {
                refuses(step, ReasonCode::AuthIdentityMissing)
            } else {
                &&& step matches BeginStep::Ask(next, BeginRequest::Revoked {
                    device_id,
                    identity_id,
                })
                &&& device_id@ == f.device_id@
                &&& identity_id@ == f.identity_id@
                &&& next == (BeginRun {
                    stage: BeginStage::Revocation,
                    parts: BuildParts {
                        device_id,
                        identity_id,
                        generation: f.generation,
                        ..run.parts
                    },
                    ..run
                })
            },
        },
        (BeginStage::Revocation, BeginReply::Revoked(revoked)) => if revoked {
            refuses(step, ReasonCode::AuthDeviceRevoked)
        } else {
            step == BeginStep::Ask(
                (BeginRun { stage: BeginStage::Clock, ..run }),
                BeginRequest::Wall,
            )
        },
        (BeginStage::Clock, BeginReply::Wall(now)) => match now {
            None => refuses(step, ReasonCode::AuthClockImplausible),
            Some(now_ms) => step == BeginStep::Ask(
                (BeginRun {
                    stage: BeginStage::Entropy,
                    parts: BuildParts { not_after_ms: offer_end(now_ms), ..run.parts },
                    ..run
                }),
                BeginRequest::Secret,
            ),
        },
        (BeginStage::Entropy, BeginReply::Secret(drawn)) => match drawn {
            None => refuses(step, ReasonCode::AuthKeyUnavailable),
            Some((secret, pairing_id)) => step == BeginStep::Ask(
                (BeginRun {
                    stage: BeginStage::Elapsing,
                    pairing_id,
                    parts: BuildParts { secret, ..run.parts },
                    ..run
                }),
                BeginRequest::Elapsed,
            ),
        },
        (BeginStage::Elapsing, BeginReply::Elapsed(now_secs)) => step == BeginStep::Ask(
            (BeginRun { stage: BeginStage::Ledger, ..run }),
            BeginRequest::LedgerBegin {
                pairing_id: run.pairing_id,
                method: run.ceremony.method(),
                now_secs,
            },
        ),
        (BeginStage::Ledger, BeginReply::Begun(ok)) => if !ok {
            refuses(step, ReasonCode::AuthPairingExpired)
        } else {
            match c.tk_public {
                Some(tk_public) => step == BeginStep::Ask(
                    (BeginRun { stage: BeginStage::Emitting, ..run }),
                    emits(run, tk_public),
                ),
                None => step == BeginStep::Ask(
                    (BeginRun { stage: BeginStage::TunnelKey, ..run }),
                    BeginRequest::TunnelKey,
                ),
            }
        },
        (BeginStage::TunnelKey, BeginReply::TunnelKey(key)) => match key {
            None => after == c && refuses_and_burns(
                step,
                ReasonCode::AuthKeyUnavailable,
                run.pairing_id,
            ),
            Some(tk_public) => {
                &&& after == (PairingCeremonies {
                    tk_public: Some(tk_public),
                    ..c
                })
                &&& step == BeginStep::Ask(
                    (BeginRun { stage: BeginStage::Emitting, ..run }),
                    emits(run, tk_public),
                )
            },
        },
        (BeginStage::Emitting, BeginReply::Octets(octets)) => match octets {
            None => refuses_and_burns(step, ReasonCode::AuthBindingInvalid, run.pairing_id),
            Some(to_be_signed) => step == BeginStep::Ask(
                (BeginRun { stage: BeginStage::Signing, ..run }),
                BeginRequest::Sign { generation: run.parts.generation, to_be_signed },
            ),
        },
        (BeginStage::Signing, BeginReply::Octets(octets)) => match octets {
            None => refuses_and_burns(step, ReasonCode::AuthKeyUnavailable, run.pairing_id),
            Some(signature) => step == BeginStep::Ask(
                (BeginRun { stage: BeginStage::Assembling, ..run }),
                BeginRequest::Assemble { signature },
            ),
        },
        (BeginStage::Assembling, BeginReply::Octets(octets)) => match octets {
            None => refuses_and_burns(step, ReasonCode::AuthBindingInvalid, run.pairing_id),
            Some(binding) => step == BeginStep::Ask(
                (BeginRun { stage: BeginStage::Building, ..run }),
                BeginRequest::Build { tk_public: c.tk_public->0, binding },
            ),
        },
        (BeginStage::Building, BeginReply::Built(built)) => match built {
            Err(code) => after == c && refuses_and_burns(step, code, run.pairing_id),
            Ok(octets) => {
                let offer = OfferModel {
                    octets: match octets {
                        Some(o) => Some(o@),
                        None => None,
                    },
                    not_after_ms: run.parts.not_after_ms,
                };
                let full = CeremoniesModel {
                    begun: c@.begun.insert(run.key@, run.pairing_id),
                    offers: c@.offers.insert(run.pairing_id@, offer),
                };
                &&& after@ == full
                &&& after.tk_public == c.tk_public
                &&& answers(step, run.pairing_id, 3, full)
            },
        },
        _ => true,
    }
}

/// One decision of a `pair.begin`. Only a complete ceremony changes the log and the
/// offers; a ceremony that the ledger took and that cannot complete is burned.
pub fn begin_step(c: &mut PairingCeremonies, run: BeginRun, reply: BeginReply) -> (step: BeginStep)
    requires
        old(c).wf(),
        run_fits(*old(c), run),
        reply_fits(run.stage, reply),
    ensures
        final(c).wf(),
        pairs_on(*old(c), run, reply, *final(c), step),
{
    let mut run = run;
    match reply {
        BeginReply::Authorized(ok) => {
            if !ok {
                return deny(ReasonCode::AuthPairingNotAuthorized);
            }
            run.stage = BeginStage::Identifying;
            BeginStep::Ask(run, BeginRequest::Identity)
        },
        BeginReply::Identity(identity) => {
            let f = match identity {
                Some(f) => f,
                None => {
                    return deny(ReasonCode::AuthKeyUnavailable);
                },
            };
            if !octets::same(f.derived_identity_id.as_slice(), f.identity_id.as_slice()) {
                return deny(ReasonCode::AuthIdentityMismatch);
            }
            if f.generation == 0 && !octets::same(
                f.derived_device_id.as_slice(),
                f.device_id.as_slice(),
            ) {
                return deny(ReasonCode::AuthIdentityMismatch);
            }
            if f.device_id.len() != 32 || f.identity_id.len() != 32 {
                return deny(ReasonCode::AuthIdentityMissing);
            }
            let device_id: [u8; 32] = octets::array32(f.device_id.as_slice(), 0);
            let identity_id: [u8; 32] = octets::array32(f.identity_id.as_slice(), 0);
            assert(f.device_id@.subrange(0, 32) =~= f.device_id@);
            assert(f.identity_id@.subrange(0, 32) =~= f.identity_id@);
            run.stage = BeginStage::Revocation;
            run.parts.device_id = device_id;
            run.parts.identity_id = identity_id;
            run.parts.generation = f.generation;
            BeginStep::Ask(run, BeginRequest::Revoked { device_id, identity_id })
        },
        BeginReply::Revoked(revoked) => {
            if revoked {
                return deny(ReasonCode::AuthDeviceRevoked);
            }
            run.stage = BeginStage::Clock;
            BeginStep::Ask(run, BeginRequest::Wall)
        },
        BeginReply::Wall(now) => {
            let now_ms: u64 = match now {
                Some(now_ms) => now_ms,
                None => {
                    return deny(ReasonCode::AuthClockImplausible);
                },
            };
            run.stage = BeginStage::Entropy;
            run.parts.not_after_ms = now_ms.saturating_add(CEREMONY_EXPIRY_MS);
            BeginStep::Ask(run, BeginRequest::Secret)
        },
        BeginReply::Secret(drawn) => {
            let (secret, pairing_id): ([u8; 32], [u8; 16]) = match drawn {
                Some(pair) => pair,
                None => {
                    return deny(ReasonCode::AuthKeyUnavailable);
                },
            };
            run.stage = BeginStage::Elapsing;
            run.pairing_id = pairing_id;
            run.parts.secret = secret;
            BeginStep::Ask(run, BeginRequest::Elapsed)
        },
        BeginReply::Elapsed(now_secs) => {
            run.stage = BeginStage::Ledger;
            let pairing_id = run.pairing_id;
            let method = run.ceremony.recorded();
            BeginStep::Ask(run, BeginRequest::LedgerBegin { pairing_id, method, now_secs })
        },
        BeginReply::Begun(ok) => {
            if !ok {
                run.parts.forget_secret();
                return deny(ReasonCode::AuthPairingExpired);
            }
            match c.tk_public {
                Some(tk_public) => emit(run, tk_public),
                None => {
                    run.stage = BeginStage::TunnelKey;
                    BeginStep::Ask(run, BeginRequest::TunnelKey)
                },
            }
        },
        BeginReply::TunnelKey(key) => {
            match key {
                Some(tk_public) => {
                    c.tk_public = Some(tk_public);
                    emit(run, tk_public)
                },
                None => burn(run, ReasonCode::AuthKeyUnavailable),
            }
        },
        BeginReply::Octets(octets) => {
            match run.stage {
                BeginStage::Emitting => match octets {
                    None => burn(run, ReasonCode::AuthBindingInvalid),
                    Some(to_be_signed) => {
                        run.stage = BeginStage::Signing;
                        let generation: u32 = run.parts.generation;
                        BeginStep::Ask(run, BeginRequest::Sign { generation, to_be_signed })
                    },
                },
                BeginStage::Signing => match octets {
                    None => burn(run, ReasonCode::AuthKeyUnavailable),
                    Some(signature) => {
                        run.stage = BeginStage::Assembling;
                        BeginStep::Ask(run, BeginRequest::Assemble { signature })
                    },
                },
                _ => match octets {
                    None => burn(run, ReasonCode::AuthBindingInvalid),
                    Some(binding) => {
                        let tk_public: [u8; 32] = match c.tk_public {
                            Some(tk_public) => tk_public,
                            None => [0; 32],
                        };
                        run.stage = BeginStage::Building;
                        BeginStep::Ask(run, BeginRequest::Build { tk_public, binding })
                    },
                },
            }
        },
        BeginReply::Built(built) => {
            match built {
                Err(code) => burn(run, code),
                Ok(octets) => {
                    run.parts.forget_secret();
                    let pairing_id = run.pairing_id;
                    let ghost before = c@;
                    let offer = Offer { octets, not_after_ms: run.parts.not_after_ms };
                    let ghost model = offer@;
                    c.burn_offer(&pairing_id);
                    let ghost burned = c@.offers;
                    c.offers.insert(octets::to_vec(pairing_id.as_slice()), offer);
                    assert(c@.offers =~= burned.insert(pairing_id@, model));
                    assert(c@.offers =~= before.offers.insert(pairing_id@, model));
                    c.begun.insert(run.key, pairing_id);
                    let response = c.response_body(&pairing_id);
                    let outcome = Outcome::new(
                        octets::to_vec(pairing_id.as_slice()),
                        3,
                    ).responding(response);
                    BeginStep::Done { result: Ok(outcome), burn: None }
                },
            }
        },
    }
}

fn deny(code: ReasonCode) -> (step: BeginStep)
    ensures
        refuses(step, code),
{
    BeginStep::Done { result: Err(refusal(code)), burn: None }
}

fn burn(run: BeginRun, code: ReasonCode) -> (step: BeginStep)
    ensures
        refuses_and_burns(step, code, run.pairing_id),
{
    let mut run = run;
    run.parts.forget_secret();
    BeginStep::Done { result: Err(refusal(code)), burn: Some(run.pairing_id) }
}

fn emit(run: BeginRun, tk_public: [u8; 32]) -> (step: BeginStep)
    ensures
        step == BeginStep::Ask(
            (BeginRun { stage: BeginStage::Emitting, ..run }),
            emits(run, tk_public),
        ),
{
    let mut run = run;
    run.stage = BeginStage::Emitting;
    let request = BeginRequest::Emit {
        device_id: run.parts.device_id,
        identity_id: run.parts.identity_id,
        tk_public,
        tk_generation: FIRST_TK_GENERATION,
        not_after_ms: run.parts.not_after_ms,
    };
    BeginStep::Ask(run, request)
}

/// The identifier that a `pair.cancel` or a `pair.status` names.
pub fn pairing_id_from(submission: &Submission) -> (r: Result<[u8; 16], Diagnostic>)
    ensures
        match r {
            Ok(id) => submission.params@.len() == PAIRING_ID_BYTES && id@ == submission.params@,
            Err(d) => submission.params@.len() != PAIRING_ID_BYTES && d == bare(
                ReasonCode::ProtoMalformedMessage,
            ),
        },
{
    if submission.params.len() != PAIRING_ID_BYTES {
        return Err(refusal(ReasonCode::ProtoMalformedMessage));
    }
    assert(submission.params@.subrange(0, 16) =~= submission.params@);
    Ok(octets::array16(submission.params.as_slice(), 0))
}

/// What a `pair.cancel` does next.
pub enum CancelStep {
    /// Ask the ledger whether the ceremony's window has passed, which burns it where
    /// it has.
    CheckWindow([u8; 16]),
    /// Burn the ceremony in the ledger.
    Burn([u8; 16]),
    /// It is over.
    Done(Result<Outcome, Diagnostic>),
}

/// The operation answers with one octet for a state.
pub open spec fn answers_state(step: CancelStep, state: PairingState, effects: u32) -> bool {
    &&& step matches CancelStep::Done(Ok(outcome))
    &&& outcome.result@ == seq![state_octet(state)]
    &&& outcome.effects == effects
    &&& outcome.response is None
}

/// How a `pair.cancel` begins.
pub open spec fn cancels(
    c: CeremoniesModel,
    submission: Submission,
    prior: Option<PairingState>,
    step: CancelStep,
) -> bool {
    if submission.params@.len() != PAIRING_ID_BYTES {
        step == CancelStep::Done(Err(bare(ReasonCode::ProtoMalformedMessage)))
    } else {
        match prior {
            Some(state) => answers_state(step, state, 1),
            None => if c.offers.contains_key(submission.params@) {
                step matches CancelStep::CheckWindow(id) && id@ == submission.params@
            } else {
                step == CancelStep::Done(Err(bare(ReasonCode::AuthPairingNotAuthorized)))
            },
        }
    }
}

/// Begins to cancel a ceremony. `prior` is how the ledger says that it ended, if it
/// did; such a ceremony keeps its outcome. One that was never begun here is refused,
/// and burns nothing.
pub fn cancel(c: &PairingCeremonies, submission: &Submission, prior: Option<PairingState>) -> (step:
    CancelStep)
    requires
        c.wf(),
    ensures
        cancels(c@, *submission, prior, step),
{
    let pairing_id = match pairing_id_from(submission) {
        Ok(id) => id,
        Err(d) => {
            return CancelStep::Done(Err(d));
        },
    };
    if let Some(state) = prior {
        let body = vec![state_byte(state)];
        assert(body@ =~= seq![state_octet(state)]);
        return CancelStep::Done(Ok(Outcome::new(body, 1)));
    }
    if !c.offers.contains(pairing_id.as_slice()) {
        return CancelStep::Done(Err(refusal(ReasonCode::AuthPairingNotAuthorized)));
    }
    CancelStep::CheckWindow(pairing_id)
}

/// What a `pair.cancel` leaves once its window was looked at, and how it goes on.
pub open spec fn window_checked(
    c: CeremoniesModel,
    pairing_id: [u8; 16],
    expired: bool,
    after: CeremoniesModel,
    step: CancelStep,
) -> bool {
    &&& after == (CeremoniesModel { offers: c.offers.remove(pairing_id@), ..c })
    &&& step == (if expired {
        CancelStep::Done(Err(bare(ReasonCode::AuthPairingExpired)))
    } else {
        CancelStep::Burn(pairing_id)
    })
}

/// Takes whether the window has passed. The offer goes either way. A ceremony that
/// expired is reported as that, and one that did not is burned.
pub fn cancel_checked(c: &mut PairingCeremonies, pairing_id: [u8; 16], expired: bool) -> (step:
    CancelStep)
    requires
        old(c).wf(),
    ensures
        final(c).wf(),
        final(c).enrolment == old(c).enrolment,
        final(c).tk_public == old(c).tk_public,
        window_checked(old(c)@, pairing_id, expired, final(c)@, step),
{
    c.burn_offer(&pairing_id);
    if expired {
        return CancelStep::Done(Err(refusal(ReasonCode::AuthPairingExpired)));
    }
    CancelStep::Burn(pairing_id)
}

/// Takes how the ledger says that the burned ceremony ended.
#[must_use]
pub fn cancel_burned(state: PairingState) -> (step: CancelStep)
    ensures
        answers_state(step, state, 2),
{
    let body = vec![state_byte(state)];
    assert(body@ =~= seq![state_octet(state)]);
    CancelStep::Done(Ok(Outcome::new(body, 2)))
}

/// What a `pair.status` is answered.
pub open spec fn tells_status(
    c: CeremoniesModel,
    submission: Submission,
    prior: Option<PairingState>,
    now_ms: Option<u64>,
    r: Result<Outcome, Diagnostic>,
) -> bool {
    if submission.params@.len() != PAIRING_ID_BYTES {
        r == Err::<Outcome, Diagnostic>(bare(ReasonCode::ProtoMalformedMessage))
    } else {
        match prior {
            Some(state) => reports(r, state, 0),
            None => if !c.offers.contains_key(submission.params@) {
                r == Err::<Outcome, Diagnostic>(bare(ReasonCode::AuthPairingNotAuthorized))
            } else {
                let ended = match now_ms {
                    None => true,
                    Some(now) => now >= c.offers[submission.params@].not_after_ms,
                };
                reports(
                    r,
                    if ended {
                        PairingState::Expired
                    } else {
                        PairingState::Pending
                    },
                    MAX_ATTEMPTS,
                )
            },
        }
    }
}

/// Reports where a ceremony stands, without changing it: the state, and how many runs
/// it may still fail. A ceremony past its end reads as expired, though nothing burned
/// it; and so does every ceremony while the clock cannot be used.
pub fn status(
    c: &PairingCeremonies,
    submission: &Submission,
    prior: Option<PairingState>,
    now_ms: Option<u64>,
) -> (r: Result<Outcome, Diagnostic>)
    requires
        c.wf(),
    ensures
        tells_status(c@, *submission, prior, now_ms, r),
{
    let pairing_id = match pairing_id_from(submission) {
        Ok(id) => id,
        Err(d) => {
            return Err(d);
        },
    };
    if let Some(state) = prior {
        return Ok(Outcome::read(vec![state_byte(state), 0]));
    }
    match c.offer(&pairing_id) {
        None => Err(refusal(ReasonCode::AuthPairingNotAuthorized)),
        Some(offer) => {
            let ended = match now_ms {
                None => true,
                Some(now) => now >= offer.not_after_ms,
            };
            let state = if ended { PairingState::Expired } else { PairingState::Pending };
            Ok(Outcome::read(vec![state_byte(state), MAX_ATTEMPTS]))
        },
    }
}

/// The read answers with a state and the number of runs that may still fail.
pub open spec fn reports(r: Result<Outcome, Diagnostic>, state: PairingState, left: u8) -> bool {
    &&& r matches Ok(outcome)
    &&& outcome.result@ == seq![state_octet(state), left]
    &&& outcome.effects == 1
    &&& outcome.response is None
}

/// A key keeps the identifier it was first given, whatever offers expire or are
/// cancelled, and whatever ceremony completes under another key.
pub proof fn a_key_keeps_its_ceremony(
    m: CeremoniesModel,
    key: Seq<u8>,
    stale: Seq<[u8; 16]>,
    other: Seq<u8>,
    id: [u8; 16],
    offer: OfferModel,
)
    requires
        m.begun.contains_key(key),
        !m.begun.contains_key(other),
    ensures
        m.expired(stale).begun == m.begun,
        ({
            let after = CeremoniesModel {
                begun: m.begun.insert(other, id),
                offers: m.offers.insert(id@, offer),
            };
            after.begun.contains_key(key) && after.begun[key] == m.begun[key]
        }),
{
}

/// An expired offer is gone, and every other one stays as it was.
pub proof fn expiry_drops_exactly_the_stale(
    offers: Map<Seq<u8>, OfferModel>,
    stale: Seq<[u8; 16]>,
    id: [u8; 16],
)
    ensures
        stale.contains(id) ==> !offers_without(offers, stale).contains_key(id@),
        (forall|i: int| 0 <= i < stale.len() ==> (#[trigger] stale[i])@ != id@)
            ==> offers_without(offers, stale).contains_key(id@) == offers.contains_key(id@) && (
        offers.contains_key(id@) ==> offers_without(offers, stale)[id@] == offers[id@]),
    decreases stale.len(),
{
    if stale.len() > 0 {
        let front = stale.drop_last();
        expiry_drops_exactly_the_stale(offers, front, id);
        if stale.contains(id) && stale.last() != id {
            let i = choose|i: int| 0 <= i < stale.len() && stale[i] == id;
            assert(front[i] == id);
        }
        if forall|i: int| 0 <= i < stale.len() ==> (#[trigger] stale[i])@ != id@ {
            assert forall|i: int| 0 <= i < front.len() implies (#[trigger] front[i])@ != id@ by {
                assert(front[i] == stale[i]);
            }
            assert(stale[stale.len() - 1]@ != id@);
        }
    }
}

} // verus!
