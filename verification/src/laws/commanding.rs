//! Commands: what is let in, what each begins, and how it is answered; and the stream that
//! tells of them.

use vstd::prelude::*;

use crate::dispatch::{CoreCommand, Outcome, Submission};
use crate::events::{CoreEvent, CoreEventKind, StreamModel};
use crate::execute::{executes_as, Execution};
use crate::gateway::{grants_octets, peers_octets, GatewayState, Grant};
use crate::instance::{completed, entered, CatalogueEntry, Core, CoreModel, Idempotency,
    LedgerRecord};
use crate::lite::Profile;
use crate::octets::{be64, be64_round_trip, be64_value};
use crate::reason::{Diagnostic, ReasonCode};
use crate::types::DeviceId;

verus! {

/// This build performs the operation.
pub open spec fn is_performed(op: CoreCommand) -> bool {
    match op {
        CoreCommand::StatusGet
        | CoreCommand::SessionList
        | CoreCommand::SessionGet
        | CoreCommand::PathList
        | CoreCommand::VersionGet
        | CoreCommand::MetricsGet
        | CoreCommand::LifecycleGet
        | CoreCommand::SessionConnect
        | CoreCommand::SessionDisconnect
        | CoreCommand::SessionReconnect
        | CoreCommand::NetUp
        | CoreCommand::NetDown
        | CoreCommand::EventSubscribe
        | CoreCommand::EventUnsubscribe
        | CoreCommand::HostNetworkChanged
        | CoreCommand::HostLifecycle
        | CoreCommand::GatewayGet
        | CoreCommand::GatewayPeerList
        | CoreCommand::GatewayGrantList
        | CoreCommand::PairBegin
        | CoreCommand::PairCancel
        | CoreCommand::PairStatus => true,
        _ => false,
    }
}

/// The request carries what makes a retry the same request, where its operation needs that.
pub open spec fn can_be_retried(entry: CatalogueEntry, submission: Submission) -> bool {
    &&& entry.idempotency == Idempotency::Key ==> submission.idempotency_key is Some
    &&& entry.idempotency == Idempotency::Version ==> submission.if_version is Some
}

/// The request carries the parameters that its operation needs: a peer, a lifecycle phase, a
/// ceremony or a pairing.
pub open spec fn carries_parameters(submission: Submission) -> bool {
    let params = submission.params@;
    match submission.op {
        CoreCommand::SessionConnect
        | CoreCommand::SessionGet
        | CoreCommand::SessionReconnect
        | CoreCommand::SessionDisconnect => params.len() == 32,
        CoreCommand::HostLifecycle => params.len() > 0 && 1 <= params[0] <= 4,
        CoreCommand::PairBegin => params.len() > 0 && 1 <= params[0] <= 2,
        CoreCommand::PairCancel | CoreCommand::PairStatus => params.len() == 16,
        _ => true,
    }
}

/// A command is let in exactly where the instance is sound and performs commands at all, the
/// request can be retried and carries its parameters, and the operation is performed; what
/// is let in has changed nothing yet. A command that lacks something is refused for the
/// first thing it lacks.
pub proof fn a_sound_command_is_let_in(m: CoreModel, submission: Submission, entry: CatalogueEntry)
    ensures
        ({
            let (after, r) = entered(m, submission, entry);
            let performs = m.profile == Profile::Full;
            &&& r is Ok <==> !m.poisoned && can_be_retried(entry, submission) && performs
                && carries_parameters(submission) && is_performed(submission.op)
            &&& r is Ok ==> after == m
            &&& r matches Err(d) ==> {
                &&& m.poisoned ==> d.code == ReasonCode::InternalCorePanic && after == m
                &&& !m.poisoned && !can_be_retried(entry, submission) ==> d.code
                    == ReasonCode::MgmtPreconditionFailed
                &&& !m.poisoned && can_be_retried(entry, submission) && !performs ==> d.code
                    == ReasonCode::PlatformAdapterUnavailable
                &&& !m.poisoned && can_be_retried(entry, submission) && performs
                    && !carries_parameters(submission) ==> d.code
                    == ReasonCode::ProtoMalformedMessage
                &&& !m.poisoned ==> {
                    &&& after.ledger == m.ledger.push(LedgerRecord::Diagnostic(d))
                    &&& after.sessions == m.sessions && after.planes == m.planes && after.journal
                        == m.journal && after.enforcement == m.enforcement && after.generation
                        == m.generation && after.pairing == m.pairing
                }
            }
        }),
{
}

/// A command that had an effect is answered with what only its caller is told, and the
/// stream tells of its result and not of that; a mutating one, and no other, is one
/// generation further. One that had no effect is a defect and is answered as one; and one
/// that failed is answered with why. Neither of these two advances anything.
pub proof fn a_command_is_answered_with_what_it_did(
    m: CoreModel,
    submission: Submission,
    entry: CatalogueEntry,
    outcome: Outcome,
    refusal: Diagnostic,
)
    requires
        !m.stream.closed,
        m.stream.capacity > 0,
    ensures
        ({
            let (after, r) = completed(m, submission, entry, Ok(outcome));
            let (denied, e) = completed(m, submission, entry, Err(refusal));
            &&& outcome.effects > 0 ==> {
                &&& r == Ok::<Option<Vec<u8>>, Diagnostic>(outcome.response)
                &&& after.stream.queue.len() > 0
                &&& after.stream.queue.last().kind == (CoreEventKind::CommandCompleted {
                    op: entry.name,
                    result: outcome.result,
                })
                &&& after.stream.queue.last().seq == m.stream.next_seq
                &&& after.stream.queue.last().actor_principal == submission.actor_principal
                &&& !entry.mutating ==> after.generation == m.generation
                &&& entry.mutating && m.generation < u64::MAX ==> after.generation == m.generation
                    + 1
                &&& after.ledger == m.ledger
            }
            &&& outcome.effects == 0 ==> {
                &&& r matches Err(d) && d.code == ReasonCode::InternalInvariantViolated
                &&& after.generation == m.generation
                &&& after.stream == m.stream
            }
            &&& e == Err::<Option<Vec<u8>>, Diagnostic>(refusal)
            &&& denied.generation == m.generation
            &&& denied.ledger == m.ledger.push(LedgerRecord::Diagnostic(refusal))
            &&& denied.stream.queue.len() > 0 && denied.stream.queue.last().kind == (
            CoreEventKind::CommandRejected { op: entry.name, diagnostic: refusal })
            &&& after.sessions == m.sessions && after.enforcement == m.enforcement
            &&& denied.sessions == m.sessions && denied.enforcement == m.enforcement
        }),
{
}

/// Each operation begins what its name says; none that is performed is refused, and none
/// that is not performed begins anything.
pub proof fn each_operation_begins_its_own_work(core: Core, op: CoreCommand, e: Execution)
    requires
        executes_as(core, op, e),
    ensures
        e is Refused <==> !is_performed(op),
        op == CoreCommand::SessionConnect <==> e == Execution::Connect,
        op == CoreCommand::SessionReconnect <==> e == Execution::Reconnect,
        op == CoreCommand::SessionDisconnect <==> e == Execution::Disconnect,
        op == CoreCommand::NetUp <==> e == Execution::NetUp,
        op == CoreCommand::NetDown <==> e == Execution::NetDown,
        op == CoreCommand::SessionGet <==> e == Execution::SessionGet,
        op == CoreCommand::StatusGet || op == CoreCommand::SessionList || op
            == CoreCommand::PathList || op == CoreCommand::MetricsGet <==> e == Execution::Sample,
        op == CoreCommand::VersionGet <==> e is Version,
        op == CoreCommand::HostLifecycle <==> e == Execution::HostLifecycle,
        op == CoreCommand::HostNetworkChanged <==> e == Execution::HostNetworkChanged,
        op == CoreCommand::PairBegin <==> e == Execution::PairBegin,
        op == CoreCommand::PairCancel <==> e == Execution::PairCancel,
        op == CoreCommand::PairStatus <==> e == Execution::PairStatus,
        op == CoreCommand::LifecycleGet || op == CoreCommand::EventSubscribe || op
            == CoreCommand::EventUnsubscribe || op == CoreCommand::GatewayGet || op
            == CoreCommand::GatewayPeerList || op == CoreCommand::GatewayGrantList <==> e
            is Answered,
{
}

/// What is answered at once says what is asked: the lifecycle phase, as the octet that would
/// set it; where the stream stands, as the number of its next event; and of the gateway how
/// many peers it has and may have, the floor that each has, and whether as many as it must
/// allow were asked for.
pub proof fn an_answer_says_what_is_asked(core: Core, op: CoreCommand, e: Execution)
    requires
        executes_as(core, op, e),
        e is Answered,
    ensures
        ({
            let body = e->Answered_0@;
            &&& op == CoreCommand::LifecycleGet ==> body.len() == 1
                && crate::dispatch::lifecycle_of(body) == Some(core.lifecycle)
            &&& op == CoreCommand::EventSubscribe || op == CoreCommand::EventUnsubscribe
                ==> body.len() == 8 && be64_value(body) == core.events.next_seq
            &&& op == CoreCommand::GatewayGet && core.gateway.admitted@.len() <= u64::MAX ==> {
                let g = core.gateway;
                &&& body.len() == 25
                &&& be64_value(body.subrange(0, 8)) == g.admitted@.len()
                &&& be64_value(body.subrange(8, 16)) == (if g.requested_max_peers < 16 {
                    16
                } else {
                    g.requested_max_peers
                })
                &&& be64_value(body.subrange(16, 24)) == g.floor_bits_per_sec
                &&& body[24] == (if g.requested_max_peers >= 16 {
                    1u8
                } else {
                    0u8
                })
            }
            &&& op == CoreCommand::GatewayPeerList ==> body.len() == 32
                * core.gateway.admitted@.len() && forall|i: int|
                0 <= i < core.gateway.admitted@.len() ==> body.subrange(32 * i, 32 * i + 32) == (
                #[trigger] core.gateway.admitted@[i]).bytes@
            &&& op == CoreCommand::GatewayGrantList ==> body.len() == 34
                * core.gateway.grants@.len() && forall|i: int|
                0 <= i < core.gateway.grants@.len() ==> says_grant(
                    body.subrange(34 * i, 34 * i + 34),
                    #[trigger] core.gateway.grants@[i],
                )
        }),
{
    let g = core.gateway;
    let body = e->Answered_0@;
    if op == CoreCommand::EventSubscribe || op == CoreCommand::EventUnsubscribe {
        be64_round_trip(core.events.next_seq);
    }
    if op == CoreCommand::GatewayGet {
        be64_round_trip(g.admitted@.len() as u64);
        be64_round_trip(g.ceiling() as u64);
        be64_round_trip(g.floor_bits_per_sec);
        assert(body.subrange(0, 8) =~= be64(g.admitted@.len() as u64));
        assert(body.subrange(8, 16) =~= be64(g.ceiling() as u64));
        assert(body.subrange(16, 24) =~= be64(g.floor_bits_per_sec));
    }
    if op == CoreCommand::GatewayPeerList {
        listed_peers_stand_in_order(g.admitted@);
    }
    if op == CoreCommand::GatewayGrantList {
        listed_grants_stand_in_order(g.grants@);
    }
}

/// The octets name the peer of a grant, and say for each family whether it is granted.
pub open spec fn says_grant(s: Seq<u8>, grant: Grant) -> bool {
    &&& s.subrange(0, 32) == grant.peer.bytes@
    &&& s[32] == (if grant.v4 {
        1u8
    } else {
        0u8
    })
    &&& s[33] == (if grant.v6 {
        1u8
    } else {
        0u8
    })
}

proof fn listed_peers_stand_in_order(peers: Seq<DeviceId>)
    ensures
        peers_octets(peers).len() == 32 * peers.len(),
        forall|i: int|
            0 <= i < peers.len() ==> peers_octets(peers).subrange(32 * i, 32 * i + 32) == (
            #[trigger] peers[i]).bytes@,
    decreases peers.len(),
{
    if peers.len() > 0 {
        let front = peers.drop_last();
        listed_peers_stand_in_order(front);
        let all = peers_octets(peers);
        let some = peers_octets(front);
        assert forall|i: int| 0 <= i < peers.len() implies all.subrange(32 * i, 32 * i + 32) == (
        #[trigger] peers[i]).bytes@ by {
            if i < front.len() {
                assert(front[i] == peers[i]);
                assert(all.subrange(32 * i, 32 * i + 32) =~= some.subrange(32 * i, 32 * i + 32));
            } else {
                assert(all.subrange(32 * i, 32 * i + 32) =~= peers.last().bytes@);
            }
        }
    }
}

proof fn listed_grants_stand_in_order(grants: Seq<Grant>)
    ensures
        grants_octets(grants).len() == 34 * grants.len(),
        forall|i: int|
            0 <= i < grants.len() ==> says_grant(
                grants_octets(grants).subrange(34 * i, 34 * i + 34),
                #[trigger] grants[i],
            ),
    decreases grants.len(),
{
    if grants.len() > 0 {
        let front = grants.drop_last();
        listed_grants_stand_in_order(front);
        let all = grants_octets(grants);
        let some = grants_octets(front);
        assert forall|i: int| 0 <= i < grants.len() implies says_grant(
            all.subrange(34 * i, 34 * i + 34),
            #[trigger] grants[i],
        ) by {
            let s = all.subrange(34 * i, 34 * i + 34);
            if i < front.len() {
                assert(front[i] == grants[i]);
                assert(s =~= some.subrange(34 * i, 34 * i + 34));
            } else {
                assert(s.subrange(0, 32) =~= grants.last().peer.bytes@);
            }
        }
    }
}

/// What is published on an open stream stands at its end, under the next number and for its
/// principal, and the numbers go on from there. As long as there is room nothing is lost;
/// where there is none exactly the oldest event is, and that is announced.
pub proof fn what_is_published_stands_at_the_end(
    s: StreamModel,
    kind: CoreEventKind,
    actor: Option<String>,
)
    requires
        !s.closed,
        s.next_seq < u64::MAX,
        0 < s.capacity,
        s.queue.len() <= s.capacity,
    ensures
        ({
            let after = s.published(kind, actor);
            let event = CoreEvent { seq: s.next_seq, kind, actor_principal: actor };
            &&& after.queue.len() > 0 && after.queue.last() == event
            &&& after.next_seq == s.next_seq + 1
            &&& s.queue.len() < s.capacity ==> after.queue == s.queue.push(event)
                && after.pending_gap == s.pending_gap
            &&& s.queue.len() == s.capacity ==> {
                &&& after.queue == s.queue.drop_first().push(event)
                &&& after.pending_gap matches Some((up_to, lost)) && up_to == s.queue[0].seq && (
                s.pending_gap is None ==> lost == 1) && (s.pending_gap matches Some((_, earlier))
                    ==> earlier < u64::MAX ==> lost == earlier + 1)
            }
            &&& after.woken == s.woken && after.closed == s.closed && after.capacity == s.capacity
        }),
{
}

/// The stream after so many looks.
pub open spec fn looked(s: StreamModel, n: nat) -> StreamModel
    decreases n,
{
    if n == 0 {
        s
    } else {
        looked(s, (n - 1) as nat).after_look()
    }
}

/// Looking hands out what stands in the stream, oldest first and each once, whether it is
/// closed or not; a loss is announced before anything else, once and with how much was
/// lost.
pub proof fn looking_hands_out_in_order(s: StreamModel, i: nat)
    requires
        i < s.queue.len(),
    ensures
        s.pending_gap is None ==> looked(s, i).readable() == Some(s.queue[i as int]),
        s.pending_gap matches Some((up_to_seq, dropped)) ==> {
            &&& s.readable() matches Some(e) && e.seq == up_to_seq && e.kind
                == (CoreEventKind::Compacted { up_to_seq, dropped })
            &&& looked(s, i + 1).readable() == Some(s.queue[i as int])
        },
{
    if s.pending_gap is None {
        looks_go_through(s, i);
    } else {
        let after = s.after_look();
        looks_go_through(after, i);
        looks_can_be_split(s, i);
    }
}

proof fn looks_can_be_split(s: StreamModel, n: nat)
    ensures
        looked(s, n + 1) == looked(s.after_look(), n),
    decreases n,
{
    if n == 0 {
        assert(looked(s, 0) == s);
        assert(looked(s, 1) == looked(s, 0).after_look());
    } else {
        looks_can_be_split(s, (n - 1) as nat);
    }
}

proof fn looks_go_through(s: StreamModel, n: nat)
    requires
        n <= s.queue.len(),
        s.pending_gap is None,
    ensures
        looked(s, n).queue == s.queue.skip(n as int),
        looked(s, n).pending_gap is None,
    decreases n,
{
    if n > 0 {
        looks_go_through(s, (n - 1) as nat);
        assert(s.queue.skip(n - 1).drop_first() =~= s.queue.skip(n as int));
    } else {
        assert(s.queue.skip(0) =~= s.queue);
    }
}

} // verus!
