//! Building an enrolment record from the owner material that a shell can read.
//!
//! The statements are verified outside; what their verdicts amount to is decided
//! here. A statement that fails is dropped, never admitted, and under no pinned root
//! nothing is installed at all.

use vstd::prelude::*;

use crate::octets;
use crate::pairing::{bare, refusal, OfferLimits, PairingEnrolment};
use crate::reason::{Diagnostic, ReasonCode};

verus! {

/// The owner material, as octets.
#[derive(Debug)]
pub struct OwnerMaterial {
    /// The pinned root key, encoded.
    pub ork_pub_cose: Vec<u8>,
    /// The signed anchor.
    pub anchor: Vec<u8>,
    /// The signed delegations.
    pub delegations: Vec<Vec<u8>>,
    /// Where a peer may look for this device.
    pub rendezvous_hint: String,
}

/// What of the material could be used: numbers, never content.
#[derive(Debug, Clone, Copy, PartialEq, Eq, Structural)]
pub struct MaterialReport {
    /// Whether the anchor verified under the pin and was pinned.
    pub anchor_pinned: bool,
    /// How many delegations were installed.
    pub delegations_installed: usize,
    /// How many were offered and not installed.
    pub delegations_rejected: usize,
    /// How many approvers there are.
    pub approvers: usize,
}

/// What became of one delegation: whether it verified and was installed, and the name
/// of its key where it still stands in the chain and may enrol.
#[derive(Debug)]
pub struct DelegationVerdict {
    /// It verified under the root and was installed.
    pub installed: bool,
    /// The name of its key, where it may enrol.
    pub enrol_osk_id: Option<String>,
}

/// Whether the anchor may be pinned: the pin is a key, the anchor verified under it,
/// and the anchor carries that same key.
#[must_use]
pub fn pin_anchor(pin_parses: bool, anchor_ork: &Option<Vec<u8>>, pin: &[u8]) -> (b: bool)
    ensures
        b == (pin_parses && (anchor_ork matches Some(k) && k@ == pin@)),
{
    if !pin_parses {
        return false;
    }
    match anchor_ork {
        Some(k) => octets::same(k.as_slice(), pin),
        None => false,
    }
}

/// How many of the verdicts say that a delegation was installed.
pub open spec fn installed_count(verdicts: Seq<DelegationVerdict>) -> nat
    decreases verdicts.len(),
{
    if verdicts.len() == 0 {
        0
    } else {
        installed_count(verdicts.drop_last()) + (if verdicts.last().installed {
            1nat
        } else {
            0nat
        })
    }
}

/// The names of the keys that may enrol, in order.
pub open spec fn approver_names(verdicts: Seq<DelegationVerdict>) -> Seq<Seq<char>>
    decreases verdicts.len(),
{
    if verdicts.len() == 0 {
        Seq::empty()
    } else {
        let front = approver_names(verdicts.drop_last());
        match verdicts.last().enrol_osk_id {
            Some(id) => front.push(id@),
            None => front,
        }
    }
}

/// The names of the approvers: under no pinned root there is none.
pub open spec fn approvers_of(pinned: bool, verdicts: Seq<DelegationVerdict>) -> Seq<Seq<char>> {
    if pinned {
        approver_names(verdicts)
    } else {
        Seq::empty()
    }
}

/// A list of texts, as characters.
pub open spec fn texts(list: Seq<String>) -> Seq<Seq<char>> {
    list.map_values(|s: String| s@)
}

/// What the material amounts to.
pub open spec fn report_of(pinned: bool, verdicts: Seq<DelegationVerdict>) -> MaterialReport {
    MaterialReport {
        anchor_pinned: pinned,
        delegations_installed: if pinned {
            installed_count(verdicts) as usize
        } else {
            0
        },
        delegations_rejected: if pinned {
            (verdicts.len() - installed_count(verdicts)) as usize
        } else {
            verdicts.len() as usize
        },
        approvers: approvers_of(pinned, verdicts).len() as usize,
    }
}

proof fn installed_count_bound(verdicts: Seq<DelegationVerdict>)
    ensures
        installed_count(verdicts) <= verdicts.len(),
    decreases verdicts.len(),
{
    if verdicts.len() > 0 {
        installed_count_bound(verdicts.drop_last());
    }
}

impl OwnerMaterial {
    /// Builds the record that a ceremony reads, from what became of each statement.
    /// Under no pinned root every delegation is rejected, whatever became of it, and
    /// none names an approver.
    pub fn into_enrolment(
        self,
        ik_pub_cose: Vec<u8>,
        anchor_pinned: bool,
        verdicts: &Vec<DelegationVerdict>,
        limits: OfferLimits,
    ) -> (r: Result<(PairingEnrolment, MaterialReport), Diagnostic>)
        requires
            verdicts@.len() == self.delegations@.len(),
        ensures
            match r {
                Ok((enrolment, report)) => {
                    &&& texts(enrolment.approvers@) == approvers_of(anchor_pinned, verdicts@)
                    &&& enrolment.ik_pub_cose == ik_pub_cose
                    &&& enrolment.rendezvous_hint == self.rendezvous_hint
                    &&& report == report_of(anchor_pinned, verdicts@)
                    &&& PairingEnrolment::refused(
                        enrolment.approvers@,
                        ik_pub_cose@,
                        self.rendezvous_hint@,
                        limits,
                    ) is None
                },
                Err(d) => exists|approvers: Seq<String>| #[trigger]
                    texts(approvers) == approvers_of(anchor_pinned, verdicts@) && (PairingEnrolment::refused(
                        approvers,
                        ik_pub_cose@,
                        self.rendezvous_hint@,
                        limits,
                    ) matches Some(code) && d == bare(code)),
            },
    {
        let mut installed: usize = 0;
        let mut approvers: Vec<String> = Vec::new();
        let mut i: usize = 0;
        assert(verdicts@.take(0) =~= Seq::<DelegationVerdict>::empty());
        assert(texts(approvers@) =~= Seq::<Seq<char>>::empty());
        while i < verdicts.len()
            invariant
                i <= verdicts@.len(),
                installed <= i,
                installed == installed_count(verdicts@.take(i as int)),
                texts(approvers@) == approvers_of(anchor_pinned, verdicts@.take(i as int)),
            decreases verdicts@.len() - i,
        {
            if verdicts[i].installed {
                installed += 1;
            }
            let ghost before = approvers@;
            match &verdicts[i].enrol_osk_id {
                Some(id) => {
                    if anchor_pinned {
                        approvers.push(id.clone());
                        assert(texts(approvers@) =~= texts(before).push(id@));
                    }
                },
                None => {},
            }
            assert(verdicts@.take(i + 1).drop_last() =~= verdicts@.take(i as int));
            i += 1;
        }
        assert(verdicts@.take(verdicts@.len() as int) =~= verdicts@);
        assert(approvers_of(anchor_pinned, verdicts@).len() == approvers@.len());
        let report = MaterialReport {
            anchor_pinned,
            delegations_installed: if anchor_pinned { installed } else { 0 },
            delegations_rejected: if anchor_pinned {
                verdicts.len() - installed
            } else {
                verdicts.len()
            },
            approvers: approvers.len(),
        };
        let ghost names = approvers@;
        assert(texts(names) == approvers_of(anchor_pinned, verdicts@));
        match PairingEnrolment::new(approvers, ik_pub_cose, self.rendezvous_hint, limits) {
            Ok(enrolment) => Ok((enrolment, report)),
            Err(d) => Err(d),
        }
    }
}

/// Every delegation that was offered is counted once: as installed or as rejected.
pub proof fn every_delegation_is_counted(pinned: bool, verdicts: Seq<DelegationVerdict>)
    requires
        verdicts.len() <= usize::MAX,
    ensures
        report_of(pinned, verdicts).delegations_installed + report_of(
            pinned,
            verdicts,
        ).delegations_rejected == verdicts.len(),
{
    installed_count_bound(verdicts);
}

/// What the element says of this device's identity.
#[derive(Debug)]
pub struct IdentityPublic {
    /// The public key, in the element's own encoding.
    pub public_key: Vec<u8>,
    /// The digest that names this device.
    pub identity_id: Vec<u8>,
}

/// The encoding of this device's key, proved against the name that the element
/// reports: the key as it arrived, or its other reading, whichever has the digest
/// `identity_id`. `digest_as_is` is the digest of the key as it arrived; `reread` is
/// its other reading with that reading's digest, where there is one.
#[must_use]
pub fn ik_pub_cose_for(
    identity: &IdentityPublic,
    digest_as_is: &[u8],
    reread: &Option<(Vec<u8>, Vec<u8>)>,
) -> (key: Option<Vec<u8>>)
    ensures
        match key {
            Some(k) => if digest_as_is@ == identity.identity_id@ {
                k@ == identity.public_key@
            } else {
                reread matches Some((reading, digest)) && digest@ == identity.identity_id@ && k@
                    == reading@
            },
            None => digest_as_is@ != identity.identity_id@ && (reread matches Some((_, digest))
                ==> digest@ != identity.identity_id@),
        },
{
    if octets::same(digest_as_is, identity.identity_id.as_slice()) {
        return Some(octets::to_vec(identity.public_key.as_slice()));
    }
    match reread {
        Some((reading, digest)) => {
            if octets::same(digest.as_slice(), identity.identity_id.as_slice()) {
                Some(octets::to_vec(reading.as_slice()))
            } else {
                None
            }
        },
        None => None,
    }
}

/// The key to enrol with: refused where the element reports no identity, and where
/// no reading of the key is proved to be this device's.
pub fn enrol(
    identity: &Option<IdentityPublic>,
    digest_as_is: &[u8],
    reread: &Option<(Vec<u8>, Vec<u8>)>,
) -> (r: Result<Vec<u8>, Diagnostic>)
    ensures
        match *identity {
            None => r == Err::<Vec<u8>, Diagnostic>(bare(ReasonCode::AuthKeyUnavailable)),
            Some(id) => match r {
                Ok(k) => if digest_as_is@ == id.identity_id@ {
                    k@ == id.public_key@
                } else {
                    reread matches Some((reading, digest)) && digest@ == id.identity_id@ && k@
                        == reading@
                },
                Err(d) => d == bare(ReasonCode::AuthIdentityMissing) && digest_as_is@
                    != id.identity_id@ && (reread matches Some((_, digest)) ==> digest@
                    != id.identity_id@),
            },
        },
{
    match identity {
        None => Err(refusal(ReasonCode::AuthKeyUnavailable)),
        Some(id) => match ik_pub_cose_for(id, digest_as_is, reread) {
            None => Err(refusal(ReasonCode::AuthIdentityMissing)),
            Some(key) => Ok(key),
        },
    }
}

} // verus!
