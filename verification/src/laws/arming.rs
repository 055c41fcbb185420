//! Arming the host and taking the tunnel down, as whole runs.

use vstd::prelude::*;

use crate::datapath::outcome::PlatformError;
use crate::enforce::{arm_fits, arm_next, begins, requests, teardown_first, teardown_next, ArmAction,
    ArmBegin, ArmEvent, ArmStage, Armed, ContractRequest, Enforcement, Ruleset, TeardownAction,
    TeardownStage, TunnelHandle};
use crate::reason::{Component, Diagnostic, ReasonCode};
use crate::types::{IpAddr, OverlayAddresses};

verus! {

/// One moment of an arming run: what is enforced, what the run waits for, and what it asked
/// for last.
pub struct ArmMoment {
    /// What is enforced.
    pub enforced: Enforcement,
    /// What the run waits for.
    pub stage: ArmStage,
    /// What it asked for.
    pub action: ArmAction,
}

/// The `i`-th event of an arming run answers what it waits for, and is followed by the next
/// moment.
pub open spec fn arm_moves(moments: Seq<ArmMoment>, events: Seq<ArmEvent>, i: int) -> bool {
    &&& arm_fits(moments[i].stage, events[i])
    &&& (moments[i + 1].enforced, moments[i + 1].stage, moments[i + 1].action) == arm_next(
        moments[i].enforced,
        moments[i].stage,
        events[i],
    )
    &&& i > 0 ==> !(moments[i].action is Done)
}

/// A run of arming a contract of this generation, from the moment it is computed. Nothing
/// is asked of it once it is over.
pub open spec fn is_arm_run(generation: u64, moments: Seq<ArmMoment>, events: Seq<ArmEvent>) -> bool {
    &&& moments.len() == events.len() + 1
    &&& moments[0].stage == (ArmStage::Assembling { generation })
    &&& forall|i: int| 0 <= i < events.len() ==> #[trigger] arm_moves(moments, events, i)
}

/// What was asked for was done.
pub open spec fn went_well(event: ArmEvent) -> bool {
    match event {
        ArmEvent::Assembled(r) => r is Ok,
        ArmEvent::Did(r) => r is Ok,
        ArmEvent::Created(r) => r is Ok,
        ArmEvent::Read { installed, .. } => installed is Ok,
    }
}

/// A step that the platform was asked for was done.
pub open spec fn was_done(event: ArmEvent) -> bool {
    event matches ArmEvent::Did(Ok(_))
}

/// Everything before the `i`-th event was done.
pub open spec fn all_well(events: Seq<ArmEvent>, i: int) -> bool {
    forall|j: int| 0 <= j < i ==> went_well(#[trigger] events[j])
}

/// How many events it takes to have an interface: one where it is created, none where
/// there is one.
pub open spec fn creating(e: Enforcement) -> int {
    if e.handle is None {
        1
    } else {
        0
    }
}

/// The interface of a run: the one that there was, or the one that was created.
pub open spec fn interface_of(e: Enforcement, events: Seq<ArmEvent>) -> TunnelHandle {
    match e.handle {
        Some(handle) => handle,
        None => events[2]->Created_0->Ok_0,
    }
}

proof fn a_good_run_goes_on(
    generation: u64,
    moments: Seq<ArmMoment>,
    events: Seq<ArmEvent>,
    i: int,
)
    requires
        is_arm_run(generation, moments, events),
        0 <= i < moments.len(),
        all_well(events, i),
    ensures
        ({
            let before = moments[0].enforced;
            let now = moments[i];
            let c = creating(before);
            let h = interface_of(before, events);
            &&& i <= 7 + c
            &&& i == 0 ==> now.enforced == before
            &&& i == 1 ==> now.enforced == before && now.stage == (ArmStage::Denying { generation })
                && now.action == (ArmAction::SetRuleset {
                generation: 0,
                ruleset: Ruleset::Blocked,
            })
            &&& c == 1 && i == 2 ==> now.enforced == before && now.stage == (ArmStage::Creating {
                generation,
            }) && (now.action matches ArmAction::CreateInterface { name, mtu } && name@ == "twin0"@
                && mtu == 1280)
            &&& i >= 2 + c ==> now.enforced.handle == Some(h) && now.enforced.next_generation
                == before.next_generation
            &&& i == 2 + c ==> now.stage == (ArmStage::LinkingUp { generation, handle: h })
                && now.action == ArmAction::LinkUp(h)
            &&& i == 3 + c ==> now.stage == (ArmStage::Applying { generation, handle: h })
                && now.action == (ArmAction::Apply { generation })
            &&& i == 4 + c ==> now.stage == (ArmStage::Asserting { generation, handle: h })
                && now.action == ArmAction::ReadRuleset
            &&& 2 + c <= i <= 4 + c ==> now.enforced.applied == before.applied
                && now.enforced.desired == before.desired
            &&& i >= 5 + c ==> {
                &&& events[4 + c] matches ArmEvent::Read { installed: Ok(posture), connected }
                &&& now.enforced.applied == Some(generation)
                &&& now.enforced.desired == (if posture is Some && connected {
                    Ruleset::Protected
                } else {
                    Ruleset::Blocked
                })
            }
            &&& i == 5 + c ==> now.stage == (ArmStage::Swapping { generation }) && now.action == (
            ArmAction::SetRuleset { generation, ruleset: now.enforced.desired })
            &&& i == 6 + c ==> now.stage == (ArmStage::ReadingBack { generation }) && now.action
                == ArmAction::ReadRuleset
            &&& i == 7 + c ==> {
                &&& events[6 + c] matches ArmEvent::Read { installed: Ok(posture), .. }
                &&& now.action == (ArmAction::Done {
                    result: Ok(
                        Armed {
                            generation,
                            ruleset: match posture {
                                Some(ruleset) => ruleset,
                                None => Ruleset::Blocked,
                            },
                        },
                    ),
                    publish: None,
                })
            }
        }),
    decreases i,
{
    if i > 0 {
        assert(all_well(events, i - 1));
        a_good_run_goes_on(generation, moments, events, i - 1);
        assert(arm_moves(moments, events, i - 1));
        assert(went_well(events[i - 1]));
    }
}

proof fn a_failed_run_ends(
    generation: u64,
    moments: Seq<ArmMoment>,
    events: Seq<ArmEvent>,
    f: int,
)
    requires
        is_arm_run(generation, moments, events),
        0 <= f < events.len(),
        all_well(events, f),
        !went_well(events[f]),
    ensures
        moments.len() <= f + 3,
        moments[f + 1].stage is Tightening,
        moments[f + 1].enforced == (Enforcement {
            desired: Ruleset::Blocked,
            ..moments[f].enforced
        }),
        moments[f + 1].action == (ArmAction::SetRuleset {
            generation: match moments[f].enforced.applied {
                Some(applied) => applied,
                None => 0,
            },
            ruleset: Ruleset::Blocked,
        }),
        moments.len() == f + 3 ==> moments[f + 2].enforced == moments[f + 1].enforced && (
        moments[f + 2].action matches ArmAction::Done { result: Err(_), .. }),
{
    a_good_run_goes_on(generation, moments, events, f);
    assert(arm_moves(moments, events, f));
    if moments.len() > f + 2 {
        assert(arm_moves(moments, events, f + 1));
    }
    if moments.len() > f + 3 {
        assert(arm_moves(moments, events, f + 2));
    }
}

proof fn it_goes_well_or_fails_first_somewhere(events: Seq<ArmEvent>, i: int) -> (f: int)
    requires
        0 <= i <= events.len(),
    ensures
        f == i && all_well(events, i) || (0 <= f < i && all_well(events, f) && !went_well(
            events[f],
        )),
    decreases i,
{
    if i == 0 {
        0
    } else {
        let f = it_goes_well_or_fails_first_somewhere(events, i - 1);
        if f == i - 1 && went_well(events[i - 1]) {
            i
        } else {
            f
        }
    }
}

/// While everything that is asked for is done, arming goes through its order whatever was
/// enforced before: the deny is made live; the interface is created where there is none, by
/// its name and with the overlay MTU; the link is raised; the contract of this generation
/// is applied; the rule set is read; it is swapped, for protection exactly where one was
/// read and a session carries traffic; it is read back; and what was read back is reported.
pub proof fn arming_goes_through_its_order(
    generation: u64,
    moments: Seq<ArmMoment>,
    events: Seq<ArmEvent>,
    i: int,
)
    requires
        is_arm_run(generation, moments, events),
        1 <= i < moments.len(),
        all_well(events, i),
    ensures
        ({
            let c: int = if moments[0].enforced.handle is None {
                1
            } else {
                0
            };
            let asked = moments[i].action;
            let handle = interface_of(moments[0].enforced, events);
            &&& i <= 7 + c
            &&& i == 1 ==> asked == (ArmAction::SetRuleset {
                generation: 0,
                ruleset: Ruleset::Blocked,
            })
            &&& i == 2 && c == 1 ==> (asked matches ArmAction::CreateInterface { name, mtu } && name@
                == "twin0"@ && mtu == 1280)
            &&& i == 2 + c ==> asked == ArmAction::LinkUp(handle)
            &&& i == 3 + c ==> asked == (ArmAction::Apply { generation })
            &&& i == 4 + c ==> asked == ArmAction::ReadRuleset
            &&& i == 5 + c ==> (asked matches ArmAction::SetRuleset { generation: g, ruleset } && g
                == generation && (ruleset == Ruleset::Protected <==> events[4 + c] matches
                ArmEvent::Read { installed: Ok(Some(_)), connected: true }))
            &&& i == 6 + c ==> asked == ArmAction::ReadRuleset
            &&& i == 7 + c ==> (asked matches ArmAction::Done { result: Ok(armed), publish: None }
                && armed.generation == generation && (events[6 + c] matches ArmEvent::Read {
                installed: Ok(posture),
                ..
            } && (armed.ruleset == Ruleset::Protected <==> posture == Some(Ruleset::Protected))))
        }),
{
    a_good_run_goes_on(generation, moments, events, i);
    a_good_run_goes_on(generation, moments, events, 0);
}

proof fn a_good_run_applies_once(
    generation: u64,
    moments: Seq<ArmMoment>,
    events: Seq<ArmEvent>,
) -> (k: int)
    requires
        is_arm_run(generation, moments, events),
        events.len() == 7 + creating(moments[0].enforced),
        all_well(events, events.len() as int),
    ensures
        1 < k < events.len(),
        moments[k].action == (ArmAction::Apply { generation }),
        was_done(events[k]),
        moments[k - 1].action is LinkUp,
        was_done(events[k - 1]),
        moments[k + 1].action == ArmAction::ReadRuleset,
        forall|j: int|
            1 <= j < moments.len() && (#[trigger] moments[j]).action is Apply ==> j == k,
{
    let c = creating(moments[0].enforced);
    let k = 3 + c;
    assert forall|j: int| 1 <= j < moments.len() && (#[trigger] moments[j]).action is Apply implies j
        == k by {
        assert(all_well(events, j));
        a_good_run_goes_on(generation, moments, events, j);
    }
    assert(all_well(events, k));
    assert(all_well(events, k - 1));
    assert(all_well(events, k + 1));
    a_good_run_goes_on(generation, moments, events, k);
    a_good_run_goes_on(generation, moments, events, k - 1);
    a_good_run_goes_on(generation, moments, events, k + 1);
    assert(arm_moves(moments, events, k));
    assert(arm_moves(moments, events, k - 1));
    assert(went_well(events[k]));
    assert(went_well(events[k - 1]));
    k
}

/// A host that is reported as armed had its contract applied: in a run that ends so, the
/// contract of the generation that is reported was asked to be applied exactly once, right
/// after the link came up, and that was done before the rule set was read; and that
/// generation, on that interface, is what is then known to be applied.
pub proof fn an_armed_host_had_its_contract_applied(
    generation: u64,
    moments: Seq<ArmMoment>,
    events: Seq<ArmEvent>,
    armed: Armed,
)
    requires
        is_arm_run(generation, moments, events),
        events.len() > 0,
        moments.last().action matches ArmAction::Done { result: Ok(a), .. } && a == armed,
    ensures
        armed.generation == generation,
        moments.last().enforced.applied == Some(generation),
        moments.last().enforced.handle is Some,
        all_well(events, events.len() as int),
        exists|k: int|
            1 < k < events.len() && (#[trigger] moments[k]).action == (ArmAction::Apply {
                generation,
            }) && was_done(events[k]) && moments[k - 1].action is LinkUp
                && was_done(events[k - 1]) && moments[k + 1].action
                == ArmAction::ReadRuleset,
        forall|j: int, k: int|
            1 <= j < moments.len() && 1 <= k < moments.len() && (#[trigger] moments[j]).action
                is Apply && (#[trigger] moments[k]).action is Apply ==> j == k,
{
    let n = events.len() as int;
    let f = it_goes_well_or_fails_first_somewhere(events, n);
    if f < n {
        a_failed_run_ends(generation, moments, events, f);
        if moments.len() == f + 2 {
            assert(moments.last() == moments[f + 1]);
        } else {
            assert(moments.last() == moments[f + 2]);
        }
    } else {
        assert(moments.last() == moments[n]);
        a_good_run_goes_on(generation, moments, events, n);
        let k = a_good_run_applies_once(generation, moments, events);
        assert(moments[k].action == (ArmAction::Apply { generation }));
    }
}

/// A contract was applied before the `i`-th moment of a run.
pub open spec fn was_applied(
    generation: u64,
    moments: Seq<ArmMoment>,
    events: Seq<ArmEvent>,
    i: int,
) -> bool {
    exists|k: int|
        1 <= k < i && (#[trigger] moments[k]).action == (ArmAction::Apply { generation })
            && was_done(events[k])
}

/// Neither is protection asked for nor is a generation taken for applied before a contract
/// of that generation was applied: at any moment of any run, however it goes on.
pub proof fn nothing_is_protected_before_the_contract(
    generation: u64,
    moments: Seq<ArmMoment>,
    events: Seq<ArmEvent>,
    i: int,
)
    requires
        is_arm_run(generation, moments, events),
        1 <= i < moments.len(),
    ensures
        (moments[i].action matches ArmAction::SetRuleset { ruleset, .. } && ruleset
            == Ruleset::Protected) ==> was_applied(generation, moments, events, i),
        moments[i].enforced.applied != moments[0].enforced.applied ==> {
            &&& moments[i].enforced.applied == Some(generation)
            &&& was_applied(generation, moments, events, i)
        },
{
    let f = it_goes_well_or_fails_first_somewhere(events, i);
    let c = creating(moments[0].enforced);
    a_good_run_goes_on(generation, moments, events, f);
    if f < i {
        a_failed_run_ends(generation, moments, events, f);
    }
    if f >= 4 + c {
        let k = 3 + c;
        assert(all_well(events, k));
        a_good_run_goes_on(generation, moments, events, k);
        assert(arm_moves(moments, events, k));
        assert(went_well(events[k]));
        assert(moments[k].action == (ArmAction::Apply { generation }));
        assert(was_applied(generation, moments, events, f));
        assert(was_applied(generation, moments, events, i));
    }
}

/// Whatever fails, and whenever, the next thing that is asked for is the deny, the deny is
/// what is wanted from then on, and nothing else is asked for before the failure is
/// reported.
pub proof fn a_failure_leads_to_the_deny_and_nothing_else(
    generation: u64,
    moments: Seq<ArmMoment>,
    events: Seq<ArmEvent>,
    f: int,
)
    requires
        is_arm_run(generation, moments, events),
        0 <= f < events.len(),
        all_well(events, f),
        !went_well(events[f]),
    ensures
        moments[f + 1].action matches ArmAction::SetRuleset { ruleset, .. } && ruleset
            == Ruleset::Blocked,
        moments[f + 1].enforced.desired == Ruleset::Blocked,
        moments[f + 1].enforced.handle == moments[f].enforced.handle,
        moments.len() <= f + 3,
        moments.len() == f + 3 ==> moments[f + 2].enforced.desired == Ruleset::Blocked && (
        moments[f + 2].action matches ArmAction::Done { result: Err(_), .. }),
{
    a_failed_run_ends(generation, moments, events, f);
}

/// A failure is reported under the code of what failed, whatever the deny is answered; a
/// deny that is refused is told too.
pub proof fn a_failure_keeps_its_code(
    e: Enforcement,
    stage: ArmStage,
    error: PlatformError,
    event: ArmEvent,
    denied: Result<(), PlatformError>,
)
    requires
        arm_fits(stage, event),
        !(stage is Tightening),
        event == ArmEvent::Did(Err(error)) || event == ArmEvent::Created(Err(error)) || (
        event matches ArmEvent::Read { installed, .. } && installed == Err::<
            Option<Ruleset>,
            PlatformError,
        >(error)),
    ensures
        arm_next(e, stage, event).1 matches ArmStage::Tightening { failure } && failure.code
            == error.code && failure.component == Component::KillSwitch,
        arm_next(
            arm_next(e, stage, event).0,
            arm_next(e, stage, event).1,
            ArmEvent::Did(denied),
        ).2 matches ArmAction::Done { result: Err(d), publish } && d.code == error.code && tells(
            publish,
            denied,
        ),
{
}

/// A contract is computed for this device and routes to each authorized peer, as that one
/// address in each family, and to nothing else: no exit, no route that was accepted, on the
/// link or kept out, and no resolver; it resolves nothing elsewhere, and its rule set is
/// the deny.
pub proof fn a_contract_routes_to_its_peers_and_to_nothing_else(
    c: ContractRequest,
    local: OverlayAddresses,
    peers: Seq<OverlayAddresses>,
    generation: u64,
)
    requires
        requests(c, local, peers, generation),
    ensures
        c.generation == generation,
        c.overlay == local,
        c.mtu == 1280,
        c.twinnet_prefixes.v4@.len() == peers.len(),
        c.twinnet_prefixes.v6@.len() == peers.len(),
        forall|i: int|
            0 <= i < peers.len() ==> (#[trigger] c.twinnet_prefixes.v4@[i]).address == IpAddr::V4(
                peers[i].v4,
            ) && c.twinnet_prefixes.v4@[i].len == 32,
        forall|i: int|
            0 <= i < peers.len() ==> (#[trigger] c.twinnet_prefixes.v6@[i]).address == IpAddr::V6(
                peers[i].v6,
            ) && c.twinnet_prefixes.v6@[i].len == 128,
        !c.exit_v4 && !c.exit_v6 && c.selected_exit_node is None,
        c.accepted@.len() == 0 && c.on_link@.len() == 0 && c.excluded@.len() == 0,
        c.stub_addresses.v4@.len() == 0 && c.stub_addresses.v6@.len() == 0,
        c.dns.servers_v4@.len() == 0 && c.dns.servers_v6@.len() == 0,
        c.dns.block_fallback_v4 == Some(true) && c.dns.block_fallback_v6 == Some(true),
        c.dns.servers_declared_v4 == Some(true) && c.dns.servers_declared_v6 == Some(true),
        c.dns.mode == 3,
        c.ruleset == Ruleset::Blocked,
        c.tunnel_remote_address is None,
{
}

/// Arming begins with a contract exactly where there is an authorized peer: under the next
/// generation, which no later contract gets; and touches nothing else yet.
pub proof fn arming_begins_where_there_is_a_peer(
    before: Enforcement,
    after: Enforcement,
    begin: ArmBegin,
    local: OverlayAddresses,
    authorized: Seq<OverlayAddresses>,
)
    requires
        begins(before, after, begin, local, authorized),
    ensures
        begin is Assemble <==> authorized.len() > 0,
        begin matches ArmBegin::Assemble { stage, request } ==> {
            &&& stage == (ArmStage::Assembling { generation: before.next_generation })
            &&& request.generation == before.next_generation
            &&& before.next_generation < u64::MAX ==> after.next_generation
                > before.next_generation
            &&& after.handle == before.handle
            &&& after.applied == before.applied
            &&& after.desired == before.desired
        },
        begin matches ArmBegin::Refused { stage, action } ==> {
            &&& stage matches ArmStage::Tightening { failure } && failure.code
                == ReasonCode::AuthPeerUntrusted
            &&& action matches ArmAction::SetRuleset { ruleset, .. } && ruleset == Ruleset::Blocked
            &&& after.desired == Ruleset::Blocked
        },
{
}

/// A tunnel that has an interface is taken down in four steps, whatever each is answered:
/// the link goes down, the deny is asked for under the generation that is applied, the
/// interface is destroyed, and it is over. From the first answer on the deny is wanted.
/// What failed is told, under its code. Only where the interface was destroyed is it, and
/// what was applied on it, forgotten.
pub proof fn a_tunnel_is_taken_down_whole(
    e: Enforcement,
    handle: TunnelHandle,
    down: Result<(), PlatformError>,
    denied: Result<(), PlatformError>,
    destroyed: Result<(), PlatformError>,
)
    requires
        e.handle == Some(handle),
    ensures
        ({
            let (e1, s1, a1) = teardown_first(e);
            let (e2, s2, p2, a2) = teardown_next(e1, s1, down);
            let (e3, s3, p3, a3) = teardown_next(e2, s2, denied);
            let (e4, s4, p4, a4) = teardown_next(e3, s3, destroyed);
            &&& a1 == TeardownAction::LinkDown(handle)
            &&& a2 == (TeardownAction::Deny {
                generation: match e.applied {
                    Some(generation) => generation,
                    None => 0,
                },
            })
            &&& a3 == TeardownAction::Destroy(handle)
            &&& a4 == TeardownAction::Done
            &&& e1 == e
            &&& e2 == (Enforcement { desired: Ruleset::Blocked, ..e })
            &&& e3 == e2
            &&& e4.desired == Ruleset::Blocked
            &&& e4.next_generation == e.next_generation
            &&& destroyed is Ok ==> e4.handle is None && e4.applied is None
            &&& destroyed is Err ==> e4.handle == e.handle && e4.applied == e.applied
            &&& tells(p2, down) && tells(p3, denied) && tells(p4, destroyed)
        }),
{
}

/// What is published of a step: the code of its failure, and nothing where it was done.
pub open spec fn tells(published: Option<Diagnostic>, did: Result<(), PlatformError>) -> bool {
    match did {
        Ok(()) => published is None,
        Err(error) => published is Some && published->0.code == error.code,
    }
}

/// Without an interface taking the tunnel down asks for the deny, and is over.
pub proof fn without_an_interface_only_the_deny_is_asked_for(
    e: Enforcement,
    denied: Result<(), PlatformError>,
)
    requires
        e.handle is None,
    ensures
        ({
            let (e1, s1, a1) = teardown_first(e);
            let (e2, s2, p2, a2) = teardown_next(e1, s1, denied);
            &&& a1 is Deny
            &&& e1.desired == Ruleset::Blocked
            &&& a2 == TeardownAction::Done
            &&& e2 == e1
            &&& s2 == TeardownStage::Over
            &&& tells(p2, denied)
        }),
{
}

} // verus!
