//! The pairing ceremony: the enrolment record that authorizes it, the log that makes
//! a retry the same ceremony, and the offers in flight.
//!
//! An offer is secret. It leaves through the response to the one caller that began
//! its ceremony, and nothing else here holds a copy of it.

pub mod enrol;
pub mod ops;

use vstd::prelude::*;
use vstd::utf8::encode_utf8;

use crate::octets;
use crate::reason::{Component, Diagnostic, ReasonCode};
use crate::table::OctetMap;

verus! {

/// The tunnel key generation that a first enrolment binds.
pub const FIRST_TK_GENERATION: u64 = 1;

/// The width of the identifier that every pairing operation names.
pub const PAIRING_ID_BYTES: usize = 16;

/// How long a ceremony may take, in milliseconds.
pub const CEREMONY_EXPIRY_MS: u64 = 120_000;

/// How many runs a ceremony may fail.
pub const MAX_ATTEMPTS: u8 = 5;

/// Which ceremony a `pair.begin` asks for.
#[derive(Debug, Clone, Copy, PartialEq, Eq, Structural)]
pub enum Ceremony {
    /// The offer crosses a confidential channel: a code to scan, or a block to
    /// paste.
    ConfidentialChannel,
    /// A code that a human types.
    HumanCode,
}

/// The method that a ledger records.
#[derive(Debug, Clone, Copy, PartialEq, Eq, Structural)]
pub enum CeremonyType {
    /// An offer over a confidential channel.
    Qr,
    /// A code that a human typed.
    Spake2Code,
}

/// The ceremony a selector octet stands for.
pub open spec fn ceremony_of(params: Seq<u8>) -> Option<Ceremony> {
    if params.len() == 0 {
        None
    } else if params[0] == 1 {
        Some(Ceremony::ConfidentialChannel)
    } else if params[0] == 2 {
        Some(Ceremony::HumanCode)
    } else {
        None
    }
}

impl Ceremony {
    /// The selector octet.
    pub open spec fn selector(self) -> u8 {
        match self {
            Ceremony::ConfidentialChannel => 1,
            Ceremony::HumanCode => 2,
        }
    }

    /// Decodes the one-octet selector; there is no default.
    #[must_use]
    pub fn from_params(params: &[u8]) -> (c: Option<Self>)
        ensures
            c == ceremony_of(params@),
    {
        if params.len() == 0 {
            return None;
        }
        match params[0] {
            1 => Some(Ceremony::ConfidentialChannel),
            2 => Some(Ceremony::HumanCode),
            _ => None,
        }
    }

    /// The selector octet, so a caller can build a submission without guessing.
    #[must_use]
    pub fn to_params(self) -> (b: u8)
        ensures
            b == self.selector(),
    {
        match self {
            Ceremony::ConfidentialChannel => 1,
            Ceremony::HumanCode => 2,
        }
    }

    /// The method that a ledger records.
    pub open spec fn method(self) -> CeremonyType {
        match self {
            Ceremony::ConfidentialChannel => CeremonyType::Qr,
            Ceremony::HumanCode => CeremonyType::Spake2Code,
        }
    }

    /// The method that a ledger records.
    #[must_use]
    pub fn recorded(self) -> (m: CeremonyType)
        ensures
            m == self.method(),
    {
        match self {
            Ceremony::ConfidentialChannel => CeremonyType::Qr,
            Ceremony::HumanCode => CeremonyType::Spake2Code,
        }
    }
}

/// A selector octet decodes to the ceremony it was written for, whatever follows.
pub proof fn a_ceremony_selector_round_trips(c: Ceremony, rest: Seq<u8>)
    ensures
        ceremony_of(seq![c.selector()] + rest) == Some(c),
{
}

/// Where a ceremony stands.
#[derive(Debug, Clone, Copy, PartialEq, Eq, Structural)]
pub enum PairingState {
    /// It is under way.
    Pending,
    /// Both devices attested it.
    Confirmed,
    /// Its window passed.
    Expired,
    /// It was cancelled.
    Aborted,
    /// It was refused.
    Rejected,
}

/// A ceremony's state, as one octet; never 0.
pub open spec fn state_octet(state: PairingState) -> u8 {
    match state {
        PairingState::Pending => 1,
        PairingState::Confirmed => 2,
        PairingState::Expired => 3,
        PairingState::Aborted => 4,
        PairingState::Rejected => 5,
    }
}

/// A ceremony's state, as one octet; never 0, which an empty buffer reads as.
#[must_use]
pub fn state_byte(state: PairingState) -> (b: u8)
    ensures
        b == state_octet(state),
        b != 0,
{
    match state {
        PairingState::Pending => 1,
        PairingState::Confirmed => 2,
        PairingState::Expired => 3,
        PairingState::Aborted => 4,
        PairingState::Rejected => 5,
    }
}

/// Two states never share an octet.
pub proof fn state_octets_are_distinct(a: PairingState, b: PairingState)
    requires
        state_octet(a) == state_octet(b),
    ensures
        a == b,
{
}

/// The bounds of an offer.
#[derive(Debug, Clone, Copy, PartialEq, Eq, Structural)]
pub struct OfferLimits {
    /// The longest key, in octets.
    pub max_cose_key_bytes: usize,
    /// The longest hint, in octets.
    pub max_hint_bytes: usize,
}

/// A bare refusal: a registered code, and no evidence drawn from any input.
pub open spec fn bare(code: ReasonCode) -> Diagnostic {
    Diagnostic::plain(code, Component::Pairing)
}

/// A bare refusal: a registered code, and no evidence drawn from any input.
pub(crate) fn refusal(code: ReasonCode) -> (d: Diagnostic)
    ensures
        d == bare(code),
{
    Diagnostic::new(code, Component::Pairing)
}

/// What must be held before a ceremony may begin.
pub struct PairingEnrolment {
    /// The names of the approvers, whose signatures were verified.
    pub approvers: Vec<String>,
    /// This device's own key, encoded.
    pub ik_pub_cose: Vec<u8>,
    /// Where a peer may look for this device.
    pub rendezvous_hint: String,
}

impl PairingEnrolment {
    /// Why a record is refused, if it is.
    pub open spec fn refused(
        approvers: Seq<String>,
        ik_pub_cose: Seq<u8>,
        rendezvous_hint: Seq<char>,
        limits: OfferLimits,
    ) -> Option<ReasonCode> {
        if approvers.len() == 0 {
            Some(ReasonCode::AuthPairingNotAuthorized)
        } else if ik_pub_cose.len() == 0 || ik_pub_cose.len() > limits.max_cose_key_bytes {
            Some(ReasonCode::AuthIdentityMissing)
        } else if encode_utf8(rendezvous_hint).len() as usize > limits.max_hint_bytes {
            Some(ReasonCode::ProtoSizeExceeded)
        } else {
            None
        }
    }

    /// Binds the approvers and this device's own key. What every ceremony under the
    /// record would be refused for is refused here, once.
    pub fn new(
        approvers: Vec<String>,
        ik_pub_cose: Vec<u8>,
        rendezvous_hint: String,
        limits: OfferLimits,
    ) -> (r: Result<Self, Diagnostic>)
        ensures
            match PairingEnrolment::refused(approvers@, ik_pub_cose@, rendezvous_hint@, limits) {
                Some(code) => r == Err::<Self, Diagnostic>(bare(code)),
                None => r == Ok::<Self, Diagnostic>(
                    PairingEnrolment { approvers, ik_pub_cose, rendezvous_hint },
                ),
            },
    {
        if approvers.len() == 0 {
            return Err(refusal(ReasonCode::AuthPairingNotAuthorized));
        }
        if ik_pub_cose.len() == 0 || ik_pub_cose.len() > limits.max_cose_key_bytes {
            return Err(refusal(ReasonCode::AuthIdentityMissing));
        }
        if rendezvous_hint.as_str().len() > limits.max_hint_bytes {
            return Err(refusal(ReasonCode::ProtoSizeExceeded));
        }
        Ok(PairingEnrolment { approvers, ik_pub_cose, rendezvous_hint })
    }

    /// The names of the approvers.
    #[must_use]
    pub fn approvers(&self) -> (a: &Vec<String>)
        ensures
            *a == self.approvers,
    {
        &self.approvers
    }

    /// This device's own key, encoded.
    #[must_use]
    pub fn ik_pub_cose(&self) -> (k: &Vec<u8>)
        ensures
            *k == self.ik_pub_cose,
    {
        &self.ik_pub_cose
    }

    /// Where a peer may look for this device.
    #[must_use]
    pub fn rendezvous_hint(&self) -> (h: &str)
        ensures
            h@ == self.rendezvous_hint@,
    {
        self.rendezvous_hint.as_str()
    }
}

/// An offer in flight.
pub struct Offer {
    /// Its octets, where it could be encoded.
    pub octets: Option<Vec<u8>>,
    /// When it ends, in milliseconds.
    pub not_after_ms: u64,
}

/// What an [`Offer`] says.
pub struct OfferModel {
    /// Its octets.
    pub octets: Option<Seq<u8>>,
    /// When it ends.
    pub not_after_ms: u64,
}

impl Offer {
    /// What the offer says.
    pub open spec fn view(self) -> OfferModel {
        OfferModel {
            octets: match self.octets {
                Some(o) => Some(o@),
                None => None,
            },
            not_after_ms: self.not_after_ms,
        }
    }

    /// Overwrites the offer: its octets are a secret, and nothing of them is left.
    pub fn erase(&mut self)
        ensures
            final(self).octets is Some == old(self).octets is Some,
            final(self).octets matches Some(o) ==> o@ == blank(old(self).octets->0@.len()),
            final(self).not_after_ms == 0,
    {
        self.not_after_ms = 0;
        let taken = self.octets.take();
        if let Some(octets) = taken {
            let mut octets = octets;
            let n: usize = octets.len();
            let mut i: usize = 0;
            while i < n
                invariant
                    i <= n == octets@.len(),
                    forall|j: int| 0 <= j < i ==> octets@[j] == 0,
                decreases n - i,
            {
                octets[i] = 0;
                i += 1;
            }
            assert(octets@ =~= blank(n as nat));
            self.octets = Some(octets);
        }
    }
}

/// So many clear octets.
pub open spec fn blank(n: nat) -> Seq<u8> {
    Seq::new(n, |i: int| 0u8)
}

/// The pairing state: the enrolment record, the log of begun ceremonies, the offers
/// in flight, and this device's tunnel key.
pub struct PairingCeremonies {
    /// The enrolment record.
    pub enrolment: Option<PairingEnrolment>,
    /// The identifier that the first call under each key was given.
    pub begun: OctetMap<[u8; 16]>,
    /// The offers in flight, by identifier. Secret.
    pub offers: OctetMap<Offer>,
    /// The public half of this device's tunnel key, generated once.
    pub tk_public: Option<[u8; 32]>,
}

/// The pairing state, as mathematics.
#[verifier::ext_equal]
pub struct CeremoniesModel {
    /// The identifier that the first call under each key was given.
    pub begun: Map<Seq<u8>, [u8; 16]>,
    /// The offers in flight.
    pub offers: Map<Seq<u8>, OfferModel>,
}

/// The offers that are left when some have expired.
pub open spec fn offers_without(offers: Map<Seq<u8>, OfferModel>, stale: Seq<[u8; 16]>) -> Map<
    Seq<u8>,
    OfferModel,
>
    decreases stale.len(),
{
    if stale.len() == 0 {
        offers
    } else {
        offers_without(offers, stale.drop_last()).remove(stale.last()@)
    }
}

impl CeremoniesModel {
    /// The state when some offers have expired.
    pub open spec fn expired(self, stale: Seq<[u8; 16]>) -> CeremoniesModel {
        CeremoniesModel { offers: offers_without(self.offers, stale), ..self }
    }

    /// What the caller of a ceremony is told: the identifier and the offer, while it
    /// is in flight.
    pub open spec fn response(self, id: [u8; 16]) -> Option<Seq<u8>> {
        if self.offers.contains_key(id@) {
            match self.offers[id@].octets {
                Some(octets) => Some(id@ + octets),
                None => None,
            }
        } else {
            None
        }
    }
}

impl PairingCeremonies {
    /// The tables are well formed.
    pub open spec fn wf(self) -> bool {
        self.begun.wf() && self.offers.wf()
    }

    /// The log and the offers.
    pub open spec fn view(self) -> CeremoniesModel {
        CeremoniesModel {
            begun: self.begun@,
            offers: self.offers@.map_values(|o: Offer| o@),
        }
    }

    /// No enrolment, no ceremony, no key.
    #[must_use]
    pub fn new() -> (c: Self)
        ensures
            c.wf(),
            c.enrolment is None,
            c.tk_public is None,
            c@ == (CeremoniesModel { begun: Map::empty(), offers: Map::empty() }),
            c.begun.order() == Seq::<Seq<u8>>::empty(),
            c.offers.order() == Seq::<Seq<u8>>::empty(),
    {
        let c = PairingCeremonies {
            enrolment: None,
            begun: OctetMap::new(),
            offers: OctetMap::new(),
            tk_public: None,
        };
        assert(c@.offers =~= Map::empty());
        c
    }

    /// Installs the enrolment record, in place of the one that was there.
    pub fn install(&mut self, enrolment: PairingEnrolment)
        requires
            old(self).wf(),
        ensures
            final(self).wf(),
            *final(self) == (PairingCeremonies { enrolment: Some(enrolment), ..*old(self) }),
    {
        self.enrolment = Some(enrolment);
    }

    /// The enrolment record, if there is one.
    #[must_use]
    pub fn enrolment(&self) -> (e: Option<&PairingEnrolment>)
        ensures
            match e {
                Some(e) => self.enrolment == Some(*e),
                None => self.enrolment is None,
            },
    {
        self.enrolment.as_ref()
    }

    /// The offer of a ceremony, while it is in flight.
    #[must_use]
    pub fn offer(&self, pairing_id: &[u8; 16]) -> (o: Option<&Offer>)
        requires
            self.wf(),
        ensures
            match o {
                Some(o) => self@.offers.contains_key(pairing_id@) && o@
                    == self@.offers[pairing_id@],
                None => !self@.offers.contains_key(pairing_id@),
            },
    {
        self.offers.get(pairing_id.as_slice())
    }

    /// How many ceremonies were begun.
    #[must_use]
    pub fn begun_count(&self) -> (n: usize)
        requires
            self.wf(),
        ensures
            n == self.begun.order().len(),
    {
        self.begun.len()
    }

    /// Takes the offer of a ceremony out, and overwrites it before it goes.
    fn burn_offer(&mut self, pairing_id: &[u8; 16])
        requires
            old(self).wf(),
        ensures
            final(self).wf(),
            final(self)@ == (CeremoniesModel {
                offers: old(self)@.offers.remove(pairing_id@),
                ..old(self)@
            }),
            final(self).enrolment == old(self).enrolment,
            final(self).begun == old(self).begun,
            final(self).tk_public == old(self).tk_public,
    {
        if let Some(offer) = self.offers.remove(pairing_id.as_slice()) {
            let mut offer = offer;
            offer.erase();
        }
        assert(self@.offers =~= old(self)@.offers.remove(pairing_id@));
    }

    /// Drops the offers whose window has passed, each overwritten first.
    pub fn expire_stale(&mut self, stale: &Vec<[u8; 16]>)
        requires
            old(self).wf(),
        ensures
            final(self).wf(),
            final(self)@ == old(self)@.expired(stale@),
            final(self).enrolment == old(self).enrolment,
            final(self).begun == old(self).begun,
            final(self).tk_public == old(self).tk_public,
    {
        let mut i: usize = 0;
        assert(stale@.take(0) =~= Seq::<[u8; 16]>::empty());
        while i < stale.len()
            invariant
                i <= stale@.len(),
                self.wf(),
                self.enrolment == old(self).enrolment,
                self.begun == old(self).begun,
                self.tk_public == old(self).tk_public,
                self@.offers == offers_without(old(self)@.offers, stale@.take(i as int)),
            decreases stale@.len() - i,
        {
            self.burn_offer(&stale[i]);
            proof {
                assert(stale@.take(i + 1).drop_last() =~= stale@.take(i as int));
            }
            i += 1;
        }
        assert(stale@.take(stale@.len() as int) =~= stale@);
    }

    /// What the caller of a ceremony is told.
    fn response_body(&self, pairing_id: &[u8; 16]) -> (r: Option<Vec<u8>>)
        requires
            self.wf(),
        ensures
            match r {
                Some(body) => self@.response(*pairing_id) == Some(body@),
                None => self@.response(*pairing_id) is None,
            },
    {
        match self.offer(pairing_id) {
            None => None,
            Some(offer) => match &offer.octets {
                None => None,
                Some(bytes) => {
                    let mut body = octets::to_vec(pairing_id.as_slice());
                    octets::put_slice(&mut body, bytes.as_slice());
                    Some(body)
                },
            },
        }
    }
}

} // verus!
