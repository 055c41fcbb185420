//! Which keys a signed statement is tried against, and what its verdict amounts to.
//!
//! There is no configuration that admits a statement nobody could verify: a set of
//! keys that is empty refuses, it does not accept.

use vstd::prelude::*;

use crate::octets;

verus! {

/// A kind of signed statement.
#[derive(Debug, Clone, Copy, PartialEq, Eq, Structural)]
#[non_exhaustive]
pub enum StatementKind {
    /// A revocation.
    RevocationStatement,
    /// An entry of a revocation list.
    RevocationEntry,
    /// A trust epoch.
    TrustEpochBundle,
    /// A policy.
    PolicyBundle,
    /// A pairing, attested.
    PairingAttestation,
    /// An identity that succeeds another.
    IdentitySuccession,
    /// A tunnel key, bound to an identity.
    TunnelKeyBinding,
    /// A route that a device offers.
    RouteAdvertisement,
    /// An exit that a device offers.
    ExitNodeOffer,
    /// The lowest epoch a relay accepts.
    RelayEpochFloor,
    /// The head of the control plane's log.
    LogHead,
    /// The owner's anchor.
    OwnerTrustAnchor,
    /// A network contract.
    NetworkContract,
}

/// Who must have signed.
#[derive(Debug, Clone, Copy, PartialEq, Eq, Structural)]
pub enum SigningAuthority {
    /// The owner, or a key that the owner's root delegated to.
    Owner,
    /// An enrolled device.
    Device,
    /// The online control plane, which can vouch for freshness and for nothing else.
    OnlineControlPlane,
}

/// Why a statement was not verified.
#[derive(Debug, Clone, Copy, PartialEq, Eq, Structural)]
#[non_exhaustive]
pub enum VerifyFailure {
    /// There is no key to verify it with.
    NoAnchor,
    /// No key verified it.
    BadSignature,
    /// Its encoding is not the canonical one.
    NonCanonical,
    /// It carries a critical field that is unknown, or lacks one.
    UnknownCriticalField,
    /// It is not of the expected kind.
    TypeMismatch,
    /// Its key may not sign it.
    WrongAuthority,
}

/// How the verification or the decoding of a statement failed.
#[derive(Debug, Clone, Copy, PartialEq, Eq, Structural)]
#[non_exhaustive]
pub enum CryptoError {
    /// The signature is not this key's.
    SignatureInvalid,
    /// The encoding is not the canonical one.
    NonCanonicalCbor,
    /// A critical field is unknown.
    UnknownCriticalField,
    /// A critical field is missing.
    MissingCriticalField,
    /// The key's algorithm is not supported.
    IdentityAlgUnsupported,
    /// Anything else.
    Other,
}

/// When a statement holds, in milliseconds; `None` for no bound.
#[derive(Debug, Clone, Copy, PartialEq, Eq, Structural)]
pub struct ValidityWindow {
    /// From when.
    pub not_before_ms: Option<u64>,
    /// Until when.
    pub not_after_ms: Option<u64>,
}

/// A statement that verified: the octets are those that arrived, never a re-encoding.
#[derive(Debug)]
pub struct VerifiedStatement {
    /// Its kind.
    pub kind: StatementKind,
    /// Who signed.
    pub authority: SigningAuthority,
    /// The octets as they arrived.
    pub payload: Vec<u8>,
    /// When it holds.
    pub window: ValidityWindow,
}

/// A key that a statement may be tried against.
#[derive(Debug, Clone, Copy, PartialEq, Eq, Structural)]
pub enum KeyRef {
    /// The owner's root key.
    Ork,
    /// The key of the `i`-th delegation that was named.
    Osk(usize),
    /// The `i`-th device key.
    Device(usize),
    /// The `i`-th key of the control plane's log.
    LogHead(usize),
}

/// The positions of a list that hold `true`, in order.
pub open spec fn positions(flags: Seq<bool>) -> Seq<int>
    decreases flags.len(),
{
    if flags.len() == 0 {
        Seq::empty()
    } else {
        let front = positions(flags.drop_last());
        if flags.last() {
            front.push(flags.len() - 1)
        } else {
            front
        }
    }
}

/// The keys that an authority admits.
pub open spec fn admitted_keys(v: AnchorStatementVerifier, authority: SigningAuthority) -> Seq<
    KeyRef,
> {
    match authority {
        SigningAuthority::Owner => if v.root_pinned {
            seq![KeyRef::Ork] + positions(v.delegations@).map_values(
                |i: int| KeyRef::Osk(i as usize),
            )
        } else {
            Seq::empty()
        },
        SigningAuthority::Device => positions(v.device_keys@).map_values(
            |i: int| KeyRef::Device(i as usize),
        ),
        SigningAuthority::OnlineControlPlane => positions(v.log_head_keys@).map_values(
            |i: int| KeyRef::LogHead(i as usize),
        ),
    }
}

/// The verifier: which of its configured keys there really are. A delegation that the
/// owner's chain does not hold, and a key that does not parse, are there as `false`.
#[derive(Debug)]
pub struct AnchorStatementVerifier {
    /// Whether a root is pinned.
    pub root_pinned: bool,
    /// For each delegation that was named, whether the chain holds its key.
    pub delegations: Vec<bool>,
    /// For each device key, whether it parses.
    pub device_keys: Vec<bool>,
    /// For each key of the control plane's log, whether it parses.
    pub log_head_keys: Vec<bool>,
}

impl AnchorStatementVerifier {
    /// A verifier over the owner's chain. No device and no control plane is believed
    /// until its keys are supplied.
    #[must_use]
    pub fn new(root_pinned: bool) -> (v: Self)
        ensures
            v.root_pinned == root_pinned,
            v.delegations@.len() == 0,
            v.device_keys@.len() == 0,
            v.log_head_keys@.len() == 0,
    {
        AnchorStatementVerifier {
            root_pinned,
            delegations: Vec::new(),
            device_keys: Vec::new(),
            log_head_keys: Vec::new(),
        }
    }

    /// The device keys.
    #[must_use]
    pub fn with_device_keys(self, parsed: Vec<bool>) -> (v: Self)
        ensures
            v == (AnchorStatementVerifier { device_keys: parsed, ..self }),
    {
        AnchorStatementVerifier { device_keys: parsed, ..self }
    }

    /// The keys of the control plane's log.
    #[must_use]
    pub fn with_log_head_keys(self, parsed: Vec<bool>) -> (v: Self)
        ensures
            v == (AnchorStatementVerifier { log_head_keys: parsed, ..self }),
    {
        AnchorStatementVerifier { log_head_keys: parsed, ..self }
    }

    /// The delegations whose keys are tried. The keys are the chain's, so naming one
    /// can narrow what is tried and never add to it.
    #[must_use]
    pub fn with_owner_delegations(self, resolved: Vec<bool>) -> (v: Self)
        ensures
            v == (AnchorStatementVerifier { delegations: resolved, ..self }),
    {
        AnchorStatementVerifier { delegations: resolved, ..self }
    }

    /// The keys that an authority admits, or that there are none.
    pub fn candidates(&self, authority: SigningAuthority) -> (r: Result<Vec<KeyRef>, VerifyFailure>)
        ensures
            match r {
                Ok(keys) => keys@ == admitted_keys(*self, authority) && keys@.len() > 0,
                Err(e) => admitted_keys(*self, authority).len() == 0 && e
                    == VerifyFailure::NoAnchor,
            },
    {
        let mut keys: Vec<KeyRef> = Vec::new();
        let flags: &Vec<bool> = match authority {
            SigningAuthority::Owner => {
                if !self.root_pinned {
                    return Err(VerifyFailure::NoAnchor);
                }
                keys.push(KeyRef::Ork);
                &self.delegations
            },
            SigningAuthority::Device => &self.device_keys,
            SigningAuthority::OnlineControlPlane => &self.log_head_keys,
        };
        let ghost start = keys@;
        let ghost f = |i: int| key_at(authority, i as usize);
        let mut i: usize = 0;
        assert(flags@.take(0) =~= Seq::<bool>::empty());
        assert(keys@ =~= start + positions(flags@.take(0)).map_values(f));
        while i < flags.len()
            invariant
                i <= flags@.len(),
                f == (|i: int| key_at(authority, i as usize)),
                keys@ == start + positions(flags@.take(i as int)).map_values(f),
            decreases flags@.len() - i,
        {
            let ghost done = positions(flags@.take(i as int));
            if flags[i] {
                keys.push(key_ref(authority, i));
                assert(done.push(i as int).map_values(f) =~= done.map_values(f).push(f(i as int)));
            }
            proof {
                assert(flags@.take(i + 1).drop_last() =~= flags@.take(i as int));
                assert(keys@ =~= start + positions(flags@.take(i + 1)).map_values(f));
            }
            i += 1;
        }
        assert(flags@.take(flags@.len() as int) =~= flags@);
        assert(keys@ =~= admitted_keys(*self, authority)) by {
            assert(positions(flags@).map_values(f) =~= match authority {
                SigningAuthority::Owner => positions(flags@).map_values(
                    |i: int| KeyRef::Osk(i as usize),
                ),
                SigningAuthority::Device => positions(flags@).map_values(
                    |i: int| KeyRef::Device(i as usize),
                ),
                SigningAuthority::OnlineControlPlane => positions(flags@).map_values(
                    |i: int| KeyRef::LogHead(i as usize),
                ),
            });
        }
        if keys.len() == 0 {
            return Err(VerifyFailure::NoAnchor);
        }
        Ok(keys)
    }
}

/// The key at a position of an authority's list.
pub open spec fn key_at(authority: SigningAuthority, i: usize) -> KeyRef {
    match authority {
        SigningAuthority::Owner => KeyRef::Osk(i),
        SigningAuthority::Device => KeyRef::Device(i),
        SigningAuthority::OnlineControlPlane => KeyRef::LogHead(i),
    }
}

fn key_ref(authority: SigningAuthority, i: usize) -> (k: KeyRef)
    ensures
        k == key_at(authority, i),
{
    match authority {
        SigningAuthority::Owner => KeyRef::Osk(i),
        SigningAuthority::Device => KeyRef::Device(i),
        SigningAuthority::OnlineControlPlane => KeyRef::LogHead(i),
    }
}

/// What a failure that is not the wrong key's amounts to.
pub open spec fn envelope_failure(error: CryptoError) -> VerifyFailure {
    match error {
        CryptoError::NonCanonicalCbor => VerifyFailure::NonCanonical,
        CryptoError::UnknownCriticalField
        | CryptoError::MissingCriticalField => VerifyFailure::UnknownCriticalField,
        CryptoError::IdentityAlgUnsupported => VerifyFailure::WrongAuthority,
        _ => VerifyFailure::BadSignature,
    }
}

fn map_envelope_error(error: CryptoError) -> (f: VerifyFailure)
    ensures
        f == envelope_failure(error),
{
    match error {
        CryptoError::NonCanonicalCbor => VerifyFailure::NonCanonical,
        CryptoError::UnknownCriticalField
        | CryptoError::MissingCriticalField => VerifyFailure::UnknownCriticalField,
        CryptoError::IdentityAlgUnsupported => VerifyFailure::WrongAuthority,
        _ => VerifyFailure::BadSignature,
    }
}

/// The window of a statement, from how its payload decoded: until when it says that
/// it holds. A revocation holds for ever, whatever it says. A tunnel key binding is
/// refused: whose it is cannot be told here.
pub open spec fn window_for(kind: StatementKind, decoded: Result<u64, CryptoError>) -> Result<
    ValidityWindow,
    VerifyFailure,
> {
    if kind == StatementKind::TunnelKeyBinding {
        Err(VerifyFailure::NoAnchor)
    } else {
        match decoded {
            Ok(not_after_ms) => Ok(
                ValidityWindow {
                    not_before_ms: None,
                    not_after_ms: if kind == StatementKind::RevocationStatement || kind
                        == StatementKind::RevocationEntry {
                        None
                    } else {
                        Some(not_after_ms)
                    },
                },
            ),
            Err(CryptoError::UnknownCriticalField)
            | Err(CryptoError::MissingCriticalField) => Err(VerifyFailure::UnknownCriticalField),
            Err(_) => Err(VerifyFailure::TypeMismatch),
        }
    }
}

/// The window of a statement, from how its payload decoded.
pub fn window_of(kind: StatementKind, decoded: Result<u64, CryptoError>) -> (r: Result<
    ValidityWindow,
    VerifyFailure,
>)
    ensures
        r == window_for(kind, decoded),
{
    let bounded = match kind {
        StatementKind::RevocationStatement => false,
        StatementKind::RevocationEntry => false,
        StatementKind::TrustEpochBundle => true,
        StatementKind::PolicyBundle => true,
        StatementKind::PairingAttestation => true,
        StatementKind::IdentitySuccession => true,
        StatementKind::RouteAdvertisement => true,
        StatementKind::ExitNodeOffer => true,
        StatementKind::RelayEpochFloor => true,
        StatementKind::LogHead => true,
        StatementKind::OwnerTrustAnchor => true,
        StatementKind::NetworkContract => true,
        StatementKind::TunnelKeyBinding => {
            return Err(VerifyFailure::NoAnchor);
        },
    };
    match decoded {
        Ok(not_after_ms) => Ok(
            ValidityWindow {
                not_before_ms: None,
                not_after_ms: if bounded { Some(not_after_ms) } else { None },
            },
        ),
        Err(error) => match error {
            CryptoError::UnknownCriticalField
            | CryptoError::MissingCriticalField => Err(VerifyFailure::UnknownCriticalField),
            _ => Err(VerifyFailure::TypeMismatch),
        },
    }
}

/// How one key's try came out.
#[derive(Debug, Clone, Copy, PartialEq, Eq)]
pub enum Tried {
    /// It verified, and its payload decoded as this: until when it holds, or how it
    /// failed.
    Verified(Result<u64, CryptoError>),
    /// It did not verify.
    Failed(CryptoError),
}

/// A verification under way: the keys that are left, the one being tried first.
#[derive(Debug)]
pub struct VerifyRun {
    /// The expected kind.
    pub kind: StatementKind,
    /// Who must have signed.
    pub authority: SigningAuthority,
    /// The keys.
    pub keys: Vec<KeyRef>,
    /// Which of them is being tried.
    pub at: usize,
}

/// One decision about a statement: what trying it against the current key amounts to.
pub open spec fn verifies(
    run: VerifyRun,
    tried: Tried,
    octets: Seq<u8>,
    after: VerifyRun,
    r: Option<Result<VerifiedStatement, VerifyFailure>>,
) -> bool {
    &&& after.kind == run.kind
    &&& after.authority == run.authority
    &&& after.keys == run.keys
    &&& match tried {
        Tried::Verified(decoded) => match window_for(run.kind, decoded) {
            Ok(window) => {
                &&& r matches Some(Ok(statement))
                &&& statement.kind == run.kind
                &&& statement.authority == run.authority
                &&& statement.payload@ == octets
                &&& statement.window == window
            },
            Err(failure) => r == Some(Err::<VerifiedStatement, VerifyFailure>(failure)),
        },
        Tried::Failed(CryptoError::SignatureInvalid) => if run.at + 1 < run.keys@.len() {
            r is None && after.wf() && after.at == run.at + 1
        } else {
            r == Some(Err::<VerifiedStatement, VerifyFailure>(VerifyFailure::BadSignature))
        },
        Tried::Failed(error) => r == Some(
            Err::<VerifiedStatement, VerifyFailure>(envelope_failure(error)),
        ),
    }
}

/// How verifying a statement begins: with the keys that this authority has.
pub open spec fn verify_begins(
    v: AnchorStatementVerifier,
    kind: StatementKind,
    authority: SigningAuthority,
    r: Result<VerifyRun, VerifyFailure>,
) -> bool {
    match r {
        Ok(run) => {
            &&& run.wf()
            &&& run.kind == kind
            &&& run.authority == authority
            &&& run.keys@ == admitted_keys(v, authority)
            &&& run.at == 0
        },
        Err(e) => admitted_keys(v, authority).len() == 0 && e
            == VerifyFailure::NoAnchor,
    }
}

impl VerifyRun {
    /// A key is being tried.
    pub open spec fn wf(self) -> bool {
        self.at < self.keys@.len()
    }

    /// The key that is being tried.
    #[must_use]
    pub fn current(&self) -> (k: KeyRef)
        requires
            self.wf(),
        ensures
            k == self.keys@[self.at as int],
    {
        self.keys[self.at]
    }

    /// Takes how the current key's try came out. Only the wrong key is worth another
    /// try: an envelope that is malformed is malformed against every key. `None`
    /// where the next key is to be tried.
    pub fn verify(&mut self, tried: Tried, octets: &[u8]) -> (r: Option<
        Result<VerifiedStatement, VerifyFailure>,
    >)
        requires
            old(self).wf(),
        ensures
            verifies(*old(self), tried, octets@, *final(self), r),
    {
        match tried {
            Tried::Verified(decoded) => match window_of(self.kind, decoded) {
                Ok(window) => Some(
                    Ok(
                        VerifiedStatement {
                            kind: self.kind,
                            authority: self.authority,
                            payload: octets::to_vec(octets),
                            window,
                        },
                    ),
                ),
                Err(failure) => Some(Err(failure)),
            },
            Tried::Failed(error) => match error {
                CryptoError::SignatureInvalid => {
                    if self.at < self.keys.len() - 1 {
                        self.at += 1;
                        None
                    } else {
                        Some(Err(VerifyFailure::BadSignature))
                    }
                },
                other => Some(Err(map_envelope_error(other))),
            },
        }
    }
}

impl AnchorStatementVerifier {
    /// Begins to verify a statement: the keys of the authority that its kind requires,
    /// or the refusal that there are none.
    pub fn begin(&self, kind: StatementKind, authority: SigningAuthority) -> (r: Result<
        VerifyRun,
        VerifyFailure,
    >)
        ensures
            verify_begins(*self, kind, authority, r),
    {
        match self.candidates(authority) {
            Ok(keys) => Ok(VerifyRun { kind, authority, keys, at: 0 }),
            Err(e) => Err(e),
        }
    }
}

/// Without a key there is no verdict but a refusal: no pinned root refuses every
/// owner statement, no device key every device's, no log key every proof of
/// freshness.
pub proof fn no_key_refuses(v: AnchorStatementVerifier)
    ensures
        !v.root_pinned ==> admitted_keys(v, SigningAuthority::Owner).len() == 0,
        v.device_keys@.len() == 0 ==> admitted_keys(v, SigningAuthority::Device).len() == 0,
        v.log_head_keys@.len() == 0 ==> admitted_keys(
            v,
            SigningAuthority::OnlineControlPlane,
        ).len() == 0,
{
}

/// A revocation never lapses, and no statement's window has a lower bound.
pub proof fn a_revocation_never_lapses(kind: StatementKind, decoded: Result<u64, CryptoError>)
    ensures
        window_for(kind, decoded) matches Ok(w) ==> w.not_before_ms is None && (w.not_after_ms
            is None <==> kind == StatementKind::RevocationStatement || kind
            == StatementKind::RevocationEntry),
{
}

} // verus!
