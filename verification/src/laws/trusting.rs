//! What is trusted: signed statements, the control channel, and the gateway's peers.

use vstd::prelude::*;

use crate::cp_binding::statements::{admitted_keys, positions, verifies, verify_begins,
    AnchorStatementVerifier, CryptoError, KeyRef, SigningAuthority, StatementKind, Tried,
    VerifiedStatement, VerifyFailure, VerifyRun};
use crate::cp_binding::transport::{bind_first, bind_next, BindActionModel, BindEvent,
    ControlPlaneEnrolment, LinkFacts};
use crate::gateway::{grant_recorded, grants_without, peer_removed, peers_without, reserved_next,
    table_answered, AdmitError, AfterReserve, AfterTable, GatewayState, Grant};
use crate::reason::ReasonCode;
use crate::types::DeviceId;

verus! {

proof fn a_flag_that_is_set_has_its_position(flags: Seq<bool>, i: int)
    requires
        0 <= i < flags.len(),
        flags[i],
    ensures
        positions(flags).contains(i),
    decreases flags.len(),
{
    let front = flags.drop_last();
    let all = positions(flags);
    if i < front.len() {
        a_flag_that_is_set_has_its_position(front, i);
        let j = choose|j: int| 0 <= j < positions(front).len() && positions(front)[j] == i;
        assert(all[j] == i);
    } else {
        assert(all[all.len() - 1] == i);
    }
}

proof fn only_flags_that_are_set_have_positions(flags: Seq<bool>, j: int)
    requires
        0 <= j < positions(flags).len(),
    ensures
        0 <= positions(flags)[j] < flags.len(),
        flags[positions(flags)[j]],
    decreases flags.len(),
{
    let front = flags.drop_last();
    if j < positions(front).len() {
        only_flags_that_are_set_have_positions(front, j);
    }
}

/// A statement is tried against every key that may have signed it and against no other: an
/// owner's against the pinned root and each delegation that stands, a device's against each
/// device key, and the control plane's against each of its log keys. Where there is none it
/// is refused for want of an anchor, and never taken.
pub proof fn a_statement_is_tried_against_every_key_it_may_have(
    v: AnchorStatementVerifier,
    kind: StatementKind,
    authority: SigningAuthority,
    r: Result<VerifyRun, VerifyFailure>,
    i: int,
)
    requires
        verify_begins(v, kind, authority, r),
    ensures
        r matches Err(e) ==> e == VerifyFailure::NoAnchor,
        authority == SigningAuthority::Owner ==> (r is Ok <==> v.root_pinned),
        authority == SigningAuthority::Owner && v.root_pinned ==> {
            &&& r->Ok_0.keys@[0] == KeyRef::Ork
            &&& 0 <= i < v.delegations@.len() && v.delegations@[i] ==> r->Ok_0.keys@.contains(
                KeyRef::Osk(i as usize),
            )
        },
        authority == SigningAuthority::Device && 0 <= i < v.device_keys@.len() && v.device_keys@[i]
            ==> r is Ok && r->Ok_0.keys@.contains(KeyRef::Device(i as usize)),
        authority == SigningAuthority::OnlineControlPlane && 0 <= i < v.log_head_keys@.len()
            && v.log_head_keys@[i] ==> r is Ok && r->Ok_0.keys@.contains(
            KeyRef::LogHead(i as usize),
        ),
        r is Ok && 0 <= i < r->Ok_0.keys@.len() ==> (match r->Ok_0.keys@[i] {
            KeyRef::Ork => authority == SigningAuthority::Owner && v.root_pinned,
            KeyRef::Osk(k) => authority == SigningAuthority::Owner && v.root_pinned,
            KeyRef::Device(k) => authority == SigningAuthority::Device,
            KeyRef::LogHead(k) => authority == SigningAuthority::OnlineControlPlane,
        }),
        r matches Ok(run) ==> run.at == 0 && run.kind == kind && run.authority == authority,
{
    let keys = admitted_keys(v, authority);
    match authority {
        SigningAuthority::Owner => {
            if 0 <= i < v.delegations@.len() && v.delegations@[i] {
                a_flag_that_is_set_has_its_position(v.delegations@, i);
                let p = positions(v.delegations@);
                let j = choose|j: int| 0 <= j < p.len() && p[j] == i;
                assert(v.root_pinned ==> keys[j + 1] == KeyRef::Osk(i as usize));
            }
        },
        SigningAuthority::Device => {
            if 0 <= i < v.device_keys@.len() && v.device_keys@[i] {
                a_flag_that_is_set_has_its_position(v.device_keys@, i);
                let p = positions(v.device_keys@);
                let j = choose|j: int| 0 <= j < p.len() && p[j] == i;
                assert(keys[j] == KeyRef::Device(i as usize));
            }
        },
        SigningAuthority::OnlineControlPlane => {
            if 0 <= i < v.log_head_keys@.len() && v.log_head_keys@[i] {
                a_flag_that_is_set_has_its_position(v.log_head_keys@, i);
                let p = positions(v.log_head_keys@);
                let j = choose|j: int| 0 <= j < p.len() && p[j] == i;
                assert(keys[j] == KeyRef::LogHead(i as usize));
            }
        },
    }
}

/// A key that did not parse, and a delegation that does not stand, is never tried.
pub proof fn a_key_that_is_none_is_never_tried(
    v: AnchorStatementVerifier,
    kind: StatementKind,
    authority: SigningAuthority,
    r: Result<VerifyRun, VerifyFailure>,
    i: usize,
)
    requires
        verify_begins(v, kind, authority, r),
        r is Ok,
        v.delegations@.len() <= usize::MAX && v.device_keys@.len() <= usize::MAX
            && v.log_head_keys@.len() <= usize::MAX,
    ensures
        r->Ok_0.keys@.contains(KeyRef::Osk(i)) ==> i < v.delegations@.len() && v.delegations@[
        i as int],
        r->Ok_0.keys@.contains(KeyRef::Device(i)) ==> i < v.device_keys@.len() && v.device_keys@[
        i as int],
        r->Ok_0.keys@.contains(KeyRef::LogHead(i)) ==> i < v.log_head_keys@.len()
            && v.log_head_keys@[i as int],
{
    let keys = r->Ok_0.keys@;
    if keys.contains(KeyRef::Osk(i)) {
        let j = choose|j: int| 0 <= j < keys.len() && keys[j] == KeyRef::Osk(i);
        only_flags_that_are_set_have_positions(v.delegations@, j - 1);
    }
    if keys.contains(KeyRef::Device(i)) {
        let j = choose|j: int| 0 <= j < keys.len() && keys[j] == KeyRef::Device(i);
        only_flags_that_are_set_have_positions(v.device_keys@, j);
    }
    if keys.contains(KeyRef::LogHead(i)) {
        let j = choose|j: int| 0 <= j < keys.len() && keys[j] == KeyRef::LogHead(i);
        only_flags_that_are_set_have_positions(v.log_head_keys@, j);
    }
}

/// A statement whose signature one of its keys verifies is taken, whichever of them it is:
/// its octets as they came, of the kind and by the authority that were asked for, and until
/// its end; a revocation has none. A signature that does not verify is tried with the next
/// key, and refused after the last one. Whatever else is wrong refuses at once, by its name.
pub proof fn a_verified_statement_is_taken(
    run: VerifyRun,
    until: u64,
    octets: Seq<u8>,
    after: VerifyRun,
    r: Option<Result<VerifiedStatement, VerifyFailure>>,
    wrong: VerifyRun,
    no: Option<Result<VerifiedStatement, VerifyFailure>>,
    other: VerifyRun,
    error: CryptoError,
    refused: Option<Result<VerifiedStatement, VerifyFailure>>,
)
    requires
        run.at < run.keys@.len(),
        run.kind != StatementKind::TunnelKeyBinding,
        error != CryptoError::SignatureInvalid,
        verifies(run, Tried::Verified(Ok(until)), octets, after, r),
        verifies(run, Tried::Failed(CryptoError::SignatureInvalid), octets, wrong, no),
        verifies(run, Tried::Failed(error), octets, other, refused),
    ensures
        r matches Some(Ok(s)) && s.kind == run.kind && s.authority == run.authority && s.payload@
            == octets && s.window.not_before_ms is None && s.window.not_after_ms == (if run.kind
            == StatementKind::RevocationStatement || run.kind == StatementKind::RevocationEntry {
            None
        } else {
            Some(until)
        }),
        run.at + 1 < run.keys@.len() ==> no is None && wrong.at == run.at + 1 && wrong.keys
            == run.keys,
        run.at + 1 == run.keys@.len() ==> no == Some(
            Err::<VerifiedStatement, VerifyFailure>(VerifyFailure::BadSignature),
        ),
        refused == Some(
            Err::<VerifiedStatement, VerifyFailure>(
                match error {
                    CryptoError::NonCanonicalCbor => VerifyFailure::NonCanonical,
                    CryptoError::UnknownCriticalField => VerifyFailure::UnknownCriticalField,
                    CryptoError::MissingCriticalField => VerifyFailure::UnknownCriticalField,
                    CryptoError::IdentityAlgUnsupported => VerifyFailure::WrongAuthority,
                    CryptoError::SignatureInvalid => VerifyFailure::BadSignature,
                    CryptoError::Other => VerifyFailure::BadSignature,
                },
            ),
        ),
{
}

/// A key binding is never taken here, though its signature verifies; and neither is a
/// statement that verifies and does not decode as what it should be.
pub proof fn what_does_not_decode_is_not_taken(
    run: VerifyRun,
    decoded: Result<u64, CryptoError>,
    octets: Seq<u8>,
    after: VerifyRun,
    r: Option<Result<VerifiedStatement, VerifyFailure>>,
)
    requires
        verifies(run, Tried::Verified(decoded), octets, after, r),
    ensures
        run.kind == StatementKind::TunnelKeyBinding || decoded is Err ==> r is Some && r->0 is Err,
        run.kind != StatementKind::TunnelKeyBinding && decoded == Err::<u64, CryptoError>(
            CryptoError::Other,
        ) ==> r->0 == Err::<VerifiedStatement, VerifyFailure>(VerifyFailure::TypeMismatch),
{
}

/// A control transport is bound in four steps where nothing refuses: this device's identity,
/// the link, whether it can be attached in the families that the link has, and the
/// transport, translating under the link's prefix where that is one. It is bound to the
/// names that the device was enrolled with, in their order, and to those families.
pub proof fn a_control_transport_is_bound(
    enrolment: ControlPlaneEnrolment,
    f: LinkFacts,
    i: int,
)
    requires
        0 <= i < enrolment.endpoints@.len(),
    ensures
        ({
            let (s0, a0) = bind_first();
            let (s1, a1) = bind_next(enrolment, s0, BindEvent::Identity(Ok(())));
            let (s2, a2) = bind_next(enrolment, s1, BindEvent::Facts(Some(f)));
            let (s3, a3) = bind_next(enrolment, s2, BindEvent::Attachable(true));
            let (s4, a4) = bind_next(enrolment, s3, BindEvent::Built(Ok(())));
            let translated = f.nat64 is Some && f.nat64->0.len == 96 && f.nat64->0.octets@[12] == 0
                && f.nat64->0.octets@[13] == 0 && f.nat64->0.octets@[14] == 0
                && f.nat64->0.octets@[15] == 0;
            &&& a0 == BindActionModel::Identify
            &&& a1 == BindActionModel::ReadLink
            &&& a2 matches BindActionModel::Attach(families) && families.v4 == f.v4 && families.v6
                == f.v6 && families.nat64 == translated
            &&& a3 matches BindActionModel::Build { nat64 } && nat64 == (if translated {
                Some(f.nat64->0.octets)
            } else {
                None
            })
            &&& a4 matches BindActionModel::Bound { names, families } && names.len()
                == enrolment.endpoints@.len() && names[i] == enrolment.endpoints@[i].server_name
                && families.v4 == f.v4 && families.v6 == f.v6 && families.nat64 == translated
        }),
{
    if f.nat64 is Some {
        let o = f.nat64->0.octets@;
        if o[12] == 0 && o[13] == 0 && o[14] == 0 && o[15] == 0 {
            assert forall|k: int| 12 <= k < 16 implies #[trigger] o[k] == 0 by {}
        }
    }
}

/// What keeps a control transport from being bound is told under its own code: what the
/// element gives for the identity and what building gives are handed on; a link that is not
/// known or cannot be attached to is a control plane that cannot be reached.
pub proof fn a_binding_is_refused_by_name(
    enrolment: ControlPlaneEnrolment,
    f: LinkFacts,
    code: ReasonCode,
)
    ensures
        ({
            let (s0, _) = bind_first();
            let (s1, _) = bind_next(enrolment, s0, BindEvent::Identity(Ok(())));
            let (s2, _) = bind_next(enrolment, s1, BindEvent::Facts(Some(f)));
            let (s3, _) = bind_next(enrolment, s2, BindEvent::Attachable(true));
            &&& bind_next(enrolment, s0, BindEvent::Identity(Err(code))).1 matches
                BindActionModel::Refused(d) && d.code == code
            &&& bind_next(enrolment, s1, BindEvent::Facts(None)).1 matches BindActionModel::Refused(
                d,
            ) && d.code == ReasonCode::ControlUnreachable
            &&& bind_next(enrolment, s2, BindEvent::Attachable(false)).1 matches
                BindActionModel::Refused(d) && d.code == ReasonCode::ControlUnreachable
            &&& bind_next(enrolment, s3, BindEvent::Built(Err(code))).1 matches
                BindActionModel::Refused(d) && d.code == code
        }),
{
}

/// A peer is admitted where its share could be reserved, it is not admitted yet and the peer
/// table takes it: it comes last, and nobody is displaced. What is refused leaves the
/// gateway as it was; and what was reserved for it goes back.
pub proof fn a_peer_is_admitted_behind_the_others(
    g: GatewayState,
    device: DeviceId,
    refusal: AdmitError,
    after: GatewayState,
    end: AfterTable,
    same: GatewayState,
    no: AfterTable,
)
    requires
        table_answered(g, device, Ok(()), after, end),
        table_answered(g, device, Err(refusal), same, no),
    ensures
        !g.admitted@.contains(device) ==> reserved_next(g.admitted@, device, Ok(()))
            == AfterReserve::AskTable,
        g.admitted@.contains(device) ==> reserved_next(g.admitted@, device, Ok(()))
            == AfterReserve::ReleaseAndRefuse(AdmitError::SourceSetOverlap),
        reserved_next(g.admitted@, device, Err(refusal)) == AfterReserve::Refuse(refusal),
        end == AfterTable::Admitted,
        after.admitted@.len() == g.admitted@.len() + 1,
        after.admitted@.last() == device,
        forall|i: int| 0 <= i < g.admitted@.len() ==> after.admitted@[i] == g.admitted@[i],
        after.grants == g.grants,
        no == AfterTable::ReleaseAndRefuse(refusal),
        same == g,
{
}

/// A gateway is never held to fewer peers than a conforming one supports, and to no fewer than
/// were asked for.
pub proof fn a_gateway_admits_what_a_conforming_one_does(g: GatewayState)
    ensures
        g.ceiling() >= 16,
        g.ceiling() >= g.requested_max_peers,
        g.ceiling() == 16 || g.ceiling() == g.requested_max_peers,
{
}

proof fn the_others_stay(peers: Seq<DeviceId>, device: DeviceId, other: DeviceId)
    ensures
        !peers_without(peers, device).contains(device),
        other != device ==> (peers_without(peers, device).contains(other) <==> peers.contains(
            other,
        )),
    decreases peers.len(),
{
    if peers.len() > 0 {
        let front = peers.drop_last();
        let rest = peers_without(front, device);
        let all = peers_without(peers, device);
        the_others_stay(front, device, other);
        if all.contains(device) {
            let i = choose|i: int| 0 <= i < all.len() && all[i] == device;
            if i < rest.len() {
                assert(rest[i] == device);
            }
        }
        if peers.contains(other) {
            let i = choose|i: int| 0 <= i < peers.len() && peers[i] == other;
            if i < front.len() {
                assert(front[i] == other);
            }
        }
        if front.contains(other) {
            let i = choose|i: int| 0 <= i < front.len() && front[i] == other;
            assert(peers[i] == other);
        }
        assert(peers[peers.len() - 1] == peers.last());
        if rest.contains(other) {
            let i = choose|i: int| 0 <= i < rest.len() && rest[i] == other;
            assert(all[i] == other);
        }
        if all.contains(other) {
            let i = choose|i: int| 0 <= i < all.len() && all[i] == other;
            if i < rest.len() {
                assert(rest[i] == other);
            }
        }
        if peers.last() != device {
            assert(all[all.len() - 1] == peers.last());
        }
    }
}

proof fn the_other_grants_stay(grants: Seq<Grant>, device: DeviceId, i: int)
    requires
        0 <= i < grants.len(),
    ensures
        grants[i].peer != device ==> grants_without(grants, device).contains(grants[i]),
        forall|j: int|
            0 <= j < grants_without(grants, device).len() ==> (#[trigger] grants_without(
                grants,
                device,
            )[j]).peer != device,
    decreases grants.len(),
{
    let front = grants.drop_last();
    let rest = grants_without(front, device);
    let all = grants_without(grants, device);
    if front.len() > 0 {
        the_other_grants_stay(
            front,
            device,
            if i < front.len() {
                i
            } else {
                0
            },
        );
    }
    if i < front.len() && grants[i].peer != device {
        let j = choose|j: int| 0 <= j < rest.len() && rest[j] == front[i];
        assert(all[j] == grants[i]);
    }
    if i == front.len() && grants[i].peer != device {
        assert(all[all.len() - 1] == grants[i]);
    }
    assert forall|j: int| 0 <= j < all.len() implies (#[trigger] all[j]).peer != device by {
        if j < rest.len() {
            assert(all[j] == rest[j]);
        }
    }
}

/// A peer that is removed is gone, and its grant with it; every other peer and every other
/// grant stays.
pub proof fn removing_a_peer_touches_no_other(
    g: GatewayState,
    device: DeviceId,
    after: GatewayState,
    other: DeviceId,
    i: int,
)
    requires
        peer_removed(g, device, after),
        other != device,
    ensures
        !after.admitted@.contains(device),
        after.admitted@.contains(other) <==> g.admitted@.contains(other),
        0 <= i < g.grants@.len() && g.grants@[i].peer != device ==> after.grants@.contains(
            g.grants@[i],
        ),
        forall|j: int| 0 <= j < after.grants@.len() ==> (#[trigger] after.grants@[j]).peer != device,
        after.requested_max_peers == g.requested_max_peers,
{
    the_others_stay(g.admitted@, device, other);
    if g.grants@.len() > 0 {
        the_other_grants_stay(
            g.grants@,
            device,
            if 0 <= i < g.grants@.len() {
                i
            } else {
                0
            },
        );
    }
}

/// A grant that is remembered is the only one that its peer holds, as it was given; every
/// other grant, and every peer, stays.
pub proof fn a_grant_takes_the_place_of_the_earlier(
    g: GatewayState,
    grant: Grant,
    after: GatewayState,
    i: int,
)
    requires
        grant_recorded(g, grant, after),
        0 <= i < g.grants@.len(),
    ensures
        after.grants@.last() == grant,
        g.grants@[i].peer != grant.peer ==> after.grants@.contains(g.grants@[i]),
        forall|j: int|
            0 <= j < after.grants@.len() - 1 ==> (#[trigger] after.grants@[j]).peer != grant.peer,
        after.admitted == g.admitted,
{
    the_other_grants_stay(g.grants@, grant.peer, i);
    let rest = grants_without(g.grants@, grant.peer);
    if g.grants@[i].peer != grant.peer {
        let j = choose|j: int| 0 <= j < rest.len() && rest[j] == g.grants@[i];
        assert(after.grants@[j] == g.grants@[i]);
    }
    assert forall|j: int| 0 <= j < after.grants@.len() - 1 implies (
    #[trigger] after.grants@[j]).peer != grant.peer by {
        assert(after.grants@[j] == rest[j]);
    }
}

} // verus!
