//! Connecting to a peer, as a whole run; and the candidates that it gathers and probes.

use vstd::prelude::*;

use crate::establish::{binds, candidates_in, contributes, gathers, gives, host_of, in_family, kept,
    looked_at, plans_probes, probed_rows, reported, reported_by, Bind, Candidate, FamilyOutcome,
    Gathered, InterfaceFacts, Kind, Reported, Round, Row, SocketFamily, Standing, SupportedFamilies};
use crate::events::{CoreEventKind, SessionEvent};
use crate::execute::connect::{connect_first, connect_next, new_run, reconnects, ConnectAction,
    ConnectEvent, ConnectRun};
use crate::instance::{CoreModel, LedgerRecord};
use crate::reason::{Diagnostic, ReasonCode};
use crate::session::{Event, Guards};
use crate::session_table::Applied;
use crate::types::{AddressFamily, DeviceId, Endpoint, IpAddr, IpPrefix, PerFamily, Port, SessionId};

verus! {

/// How many effects an answer of a machine has.
pub open spec fn moved(applied: Applied) -> int {
    if applied.record is Some {
        1
    } else {
        0
    }
}

/// The guards say that the peer is trusted, and of its candidates exactly this.
pub open spec fn trusts(guards: Guards, found: bool) -> bool {
    &&& guards.credentials_valid
    &&& guards.peer_authorized
    &&& guards.usable_candidate == found
    &&& guards.no_candidate_either_family == !found
    &&& !guards.path_validated
    &&& !guards.retry_budget_available
}

/// Some network holds a record of the peer whose key was verified.
pub open spec fn is_trusted(m: CoreModel, peer: DeviceId, twinnet: Seq<char>) -> bool {
    m.planes.peers.contains_key((twinnet, peer.bytes@)) && m.planes.peers[(
        twinnet,
        peer.bytes@,
    )].verified
}

/// Connecting to a peer that is trusted, for the first time, goes through all of it: it
/// gathers, asks for this device's identity, asks the session's machine to connect, reads
/// the time, races what was gathered from that time on, tells the machine what there is,
/// probes, establishes, and leaves a record. The session then holds the sockets and the
/// candidates of the round and stands where its machine last said; that state is what the
/// durable record and the published event report; and every effect is counted.
pub proof fn a_first_connect_goes_through(
    m: CoreModel,
    id: SessionId,
    peer: DeviceId,
    actor: Option<String>,
    twinnet: Seq<char>,
    round: Round,
    asked: Applied,
    now: u64,
    settled: Applied,
    sent: u32,
    carried: u32,
)
    requires
        m.named(),
        is_trusted(m, peer, twinnet),
        m.sessions.contains_key(id.bytes@) ==> m.sessions[id.bytes@].sockets.len() == 0,
        sent + carried + 100 <= u32::MAX,
    ensures
        ({
            let name = id.bytes@;
            let found = round.gathered.candidates@.len() > 0;
            let (r0, a0) = connect_first(m, new_run(id, peer, actor));
            let (m1, r1, a1) = connect_next(m, r0, ConnectEvent::Gathered(round));
            let (m2, r2, a2) = connect_next(m1, r1, ConnectEvent::Identity(true));
            let (m3, r3, a3) = connect_next(m2, r2, ConnectEvent::Applied(asked));
            let (m4, r4, a4) = connect_next(m3, r3, ConnectEvent::Now(now));
            let (m5, r5, a5) = connect_next(m4, r4, ConnectEvent::Raced);
            let (m6, r6, a6) = connect_next(m5, r5, ConnectEvent::Applied(settled));
            let (m7, r7, a7) = connect_next(m6, r6, ConnectEvent::Probed(sent));
            let (m8, r8, a8) = connect_next(m7, r7, ConnectEvent::Carried(carried));
            &&& a0 == ConnectAction::Gather
            &&& a1 == ConnectAction::Identify
            &&& m1 == m
            &&& a2 matches ConnectAction::Apply { event, guards } && event
                == Event::ConnectRequested && trusts(guards, found)
            &&& m2.sessions.contains_key(name)
            &&& !m.sessions.contains_key(name) ==> m2.sessions[name].peer == peer
            &&& a3 == ConnectAction::ReadClock
            &&& a4 matches ConnectAction::Race(admitted) && admitted.candidates@
                == round.gathered.candidates@ && admitted.now == now && (
            admitted.first_direct_probe == if found {
                Some(now)
            } else {
                None
            })
            &&& a5 matches ConnectAction::Apply { event, guards } && event == (if found {
                Event::CandidatesReady
            } else {
                Event::CandidateTimeout
            }) && trusts(guards, found)
            &&& a6 == ConnectAction::Probe
            &&& a7 == ConnectAction::Carry
            &&& a8 == ConnectAction::Done(
                Ok((4 + moved(asked) + moved(settled) + sent + carried) as u32),
            )
            &&& m8.sessions[name].sockets == round.sockets@
            &&& m8.sessions[name].machine == settled.report
            &&& m8.sessions[name].raced
            &&& m8.sessions[name].rows.len() == m2.sessions[name].rows.len()
                + round.gathered.candidates@.len()
            &&& forall|i: int|
                0 <= i < round.gathered.candidates@.len() ==> (#[trigger] m8.sessions[name].rows[
                m2.sessions[name].rows.len() + i]).candidate == round.gathered.candidates@[i]
            &&& m8.journal.contains_key(name)
            &&& m8.journal[name].session_id == id && m8.journal[name].peer == peer
            &&& m8.journal[name].last_state == settled.report.state
            &&& m8.journal[name].last_reason == settled.report.reason
            &&& m8.ledger.len() > 0 && m8.ledger.last() == LedgerRecord::SessionEvent(
                SessionEvent::ConnectionRequested {
                    session_id: id,
                    state: settled.report.state,
                    peer,
                    by_user: actor is Some,
                },
            )
            &&& m8.planes.pending.len() == m.planes.pending.len() + 1
            &&& m8.enforcement == m.enforcement
        }),
{
    assert(m.planes.peers.contains_key((twinnet, peer.bytes@)));
    assert(m.planes.authorizes(peer));
    let (r0, a0) = connect_first(m, new_run(id, peer, actor));
    let (m1, r1, a1) = connect_next(m, r0, ConnectEvent::Gathered(round));
    let (m2, r2, a2) = connect_next(m1, r1, ConnectEvent::Identity(true));
    let (m3, r3, a3) = connect_next(m2, r2, ConnectEvent::Applied(asked));
    assert(m2.sessions[id.bytes@].session_id.bytes@ == id.bytes@);
    assert(m3.sessions[id.bytes@].session_id.bytes@ == id.bytes@);
    assert(a3 == ConnectAction::ReadClock);
}

/// Connecting again to a session that holds sockets gathers nothing and races nothing anew:
/// it asks for this device's identity, asks the machine, tells it whether candidates are on
/// record, probes where they are raced, establishes, and leaves a record.
pub proof fn a_second_connect_goes_through(
    m: CoreModel,
    id: SessionId,
    peer: DeviceId,
    actor: Option<String>,
    twinnet: Seq<char>,
    asked: Applied,
    settled: Applied,
    sent: u32,
    carried: u32,
    again: Result<(ConnectRun, ConnectAction), Diagnostic>,
)
    requires
        m.named(),
        is_trusted(m, peer, twinnet),
        m.sessions.contains_key(id.bytes@),
        m.sessions[id.bytes@].sockets.len() > 0,
        m.sessions[id.bytes@].raced,
        sent + carried + 100 <= u32::MAX,
        reconnects(m, id, peer, actor, again),
    ensures
        ({
            let name = id.bytes@;
            let found = m.sessions[name].rows.len() > 0;
            let (r0, a0) = connect_first(m, new_run(id, peer, actor));
            let (m1, r1, a1) = connect_next(m, r0, ConnectEvent::Identity(true));
            let (m2, r2, a2) = connect_next(m1, r1, ConnectEvent::Applied(asked));
            let (m3, r3, a3) = connect_next(m2, r2, ConnectEvent::Applied(settled));
            let (m4, r4, a4) = connect_next(m3, r3, ConnectEvent::Probed(sent));
            let (m5, r5, a5) = connect_next(m4, r4, ConnectEvent::Carried(carried));
            &&& again == Ok::<(ConnectRun, ConnectAction), Diagnostic>((r0, a0))
            &&& a0 == ConnectAction::Identify
            &&& a1 matches ConnectAction::Apply { event, guards } && event
                == Event::ConnectRequested && trusts(guards, found)
            &&& a2 matches ConnectAction::Apply { event, guards } && event == (if found {
                Event::CandidatesReady
            } else {
                Event::CandidateTimeout
            }) && trusts(guards, found)
            &&& a3 == ConnectAction::Probe
            &&& a4 == ConnectAction::Carry
            &&& a5 == ConnectAction::Done(
                Ok((2 + moved(asked) + moved(settled) + sent + carried) as u32),
            )
            &&& m5.sessions[name].sockets == m.sessions[name].sockets
            &&& m5.sessions[name].rows == m.sessions[name].rows
            &&& m5.sessions[name].keying == m.sessions[name].keying
            &&& m5.sessions[name].machine == settled.report
            &&& m5.journal[name].last_state == settled.report.state
        }),
{
    assert(m.planes.peers.contains_key((twinnet, peer.bytes@)));
    assert(m.planes.authorizes(peer));
    let (r0, a0) = connect_first(m, new_run(id, peer, actor));
    let (m1, r1, a1) = connect_next(m, r0, ConnectEvent::Identity(true));
    assert(m1.sessions[id.bytes@].session_id.bytes@ == id.bytes@);
}

/// A peer that no network holds a verified record of is not connected to, and neither is any
/// peer by a device without an identity: the two are refused under two codes, and leave
/// everything as it was.
pub proof fn only_a_trusted_peer_is_connected_to(
    m: CoreModel,
    run: ConnectRun,
    identity: bool,
)
    requires
        run.stage == crate::execute::connect::ConnectStage::Identifying,
        !identity || forall|t: Seq<char>| !#[trigger] is_trusted(m, run.peer, t),
    ensures
        ({
            let (after, _, action) = connect_next(m, run, ConnectEvent::Identity(identity));
            &&& after == m
            &&& action matches ConnectAction::Done(Err(d)) && d.code == (if identity {
                ReasonCode::AuthPeerUntrusted
            } else {
                ReasonCode::AuthKeyUnavailable
            })
        }),
{
    if identity && m.planes.authorizes(run.peer) {
        let t = choose|t: Seq<char>| #[trigger]
            m.planes.peers.contains_key((t, run.peer.bytes@)) && m.planes.peers[(
                t,
                run.peer.bytes@,
            )].verified;
        assert(is_trusted(m, run.peer, t));
    }
}

/// A session that is not known is not connected to again; and one that was closed meanwhile
/// is not reported as connected.
pub proof fn a_closed_session_is_not_connected(
    m: CoreModel,
    id: SessionId,
    peer: DeviceId,
    actor: Option<String>,
    again: Result<(ConnectRun, ConnectAction), Diagnostic>,
    run: ConnectRun,
    effects: u32,
)
    requires
        !m.sessions.contains_key(id.bytes@),
        reconnects(m, id, peer, actor, again),
        run.session_id == id,
        run.stage == crate::execute::connect::ConnectStage::Carrying,
    ensures
        again matches Err(d) && d.code == ReasonCode::NetSessionClosedByUser,
        ({
            let (after, _, action) = connect_next(m, run, ConnectEvent::Carried(effects));
            &&& after == m
            &&& action matches ConnectAction::Done(Err(d)) && d.code
                == ReasonCode::NetSessionClosedByUser
        }),
{
}

/// A socket is bound for each family that the host can open, each for its own; a host that
/// cannot say can open none. Of the sockets that were asked for those that opened are kept,
/// the IPv4 one first, and no other.
pub proof fn each_family_gets_its_socket(
    supported: Option<SupportedFamilies>,
    plan: PerFamily<Option<SocketFamily>>,
    v4: Bind,
    v6: Bind,
)
    requires
        binds(supported, plan),
    ensures
        plan.v4 is Some <==> (supported matches Some(s) && s.v4),
        plan.v6 is Some <==> (supported matches Some(s) && s.v6),
        plan.v4 is Some ==> plan.v4 == Some(SocketFamily::V4),
        plan.v6 is Some ==> plan.v6 == Some(SocketFamily::V6Only),
        ({
            let opened = kept(plan.v4, v4) + kept(plan.v6, v6);
            &&& opened.contains(SocketFamily::V4) <==> plan.v4 is Some && v4 is Bound
            &&& opened.contains(SocketFamily::V6Only) <==> plan.v6 is Some && v6 is Bound
            &&& opened.len() == 2 ==> opened[0] == SocketFamily::V4 && opened[1]
                == SocketFamily::V6Only
        }),
{
    let opened = kept(plan.v4, v4) + kept(plan.v6, v6);
    if plan.v4 is Some && v4 is Bound {
        assert(opened[0] == SocketFamily::V4);
    }
    if plan.v6 is Some && v6 is Bound {
        assert(opened[opened.len() - 1] == SocketFamily::V6Only);
    }
}

proof fn a_listed_prefix_is_in_its_family(
    addresses: Seq<IpPrefix>,
    mtu: u32,
    family: AddressFamily,
    k: int,
) -> (i: int)
    requires
        0 <= k < addresses.len(),
        addresses[k].address.family_of() == family,
    ensures
        0 <= i < in_family(addresses, mtu, family).len(),
        in_family(addresses, mtu, family)[i] == (Reported { prefix: addresses[k], mtu, at: 0 }),
    decreases addresses.len(),
{
    let front = addresses.drop_last();
    if k < front.len() {
        a_listed_prefix_is_in_its_family(front, mtu, family, k)
    } else {
        in_family(front, mtu, family).len() as int
    }
}

proof fn an_address_of_a_link_is_reported(
    facts: Seq<InterfaceFacts>,
    family: AddressFamily,
    j: int,
    k: int,
) -> (i: int)
    requires
        0 <= j < facts.len(),
        facts[j].is_up,
        !facts[j].is_overlay,
        0 <= k < facts[j].addresses@.len(),
        facts[j].addresses@[k].address.family_of() == family,
    ensures
        0 <= i < reported(facts, family).len(),
        reported(facts, family)[i] == (Reported {
            prefix: facts[j].addresses@[k],
            mtu: facts[j].mtu,
            at: 0,
        }),
    decreases facts.len(),
{
    let front = facts.drop_last();
    if j < front.len() {
        an_address_of_a_link_is_reported(front, family, j, k)
    } else {
        reported(front, family).len() + a_listed_prefix_is_in_its_family(
            facts[j].addresses@,
            facts[j].mtu,
            family,
            k,
        )
    }
}

proof fn a_usable_host_is_among_the_candidates(list: Seq<Reported>, i: int) -> (c: int)
    requires
        0 <= i < list.len(),
        crate::establish::names_a_candidate(list[i]),
    ensures
        0 <= c < candidates_in(list).len(),
        candidates_in(list)[c] == list[i],
    decreases list.len(),
{
    let front = list.drop_last();
    if i < front.len() {
        a_usable_host_is_among_the_candidates(front, i)
    } else {
        candidates_in(front).len() as int
    }
}

/// The address can be reached from elsewhere: one that only its link reaches names the link.
pub open spec fn is_reachable(address: IpAddr) -> bool {
    address matches IpAddr::V6(a) ==> (a.octets@[0] == 0xfe && 0x80 <= a.octets@[1] < 0xc0
        ==> a.zone != 0)
}

/// A candidate says what it is: an IPv4 address of this host, an IPv6 address that only its
/// link reaches, which is one whose first ten bits are those of `fe80`, or any other IPv6
/// address. It stands at its address and its socket's port, and its name begins with that of
/// its session and ends with its place among the candidates.
pub proof fn a_candidate_says_what_it_is(
    c: Candidate,
    session: SessionId,
    index: nat,
    address: IpAddr,
    port: Port,
    now: u64,
    mtu: u32,
)
    requires
        gives(c, session, index, address, port, now, mtu),
        index < 256,
    ensures
        c.kind == Kind::HostV4Private <==> address is V4,
        address matches IpAddr::V6(a) ==> (c.kind == Kind::HostV6LinkLocal <==> a.octets@[0] == 254
            && a.octets@[1] / 64 == 2),
        address is V6 ==> c.kind == Kind::HostV6LinkLocal || c.kind == Kind::HostV6Global,
        c.endpoint.address == address && c.endpoint.port == port,
        c.gathered_at == now && c.mtu_hint == mtu,
        c.id@.len() == 8,
        forall|i: int| 0 <= i < 4 ==> c.id@[i] == session.bytes@[i],
        c.id@[7] == index,
{
    let n = index as u32;
    assert(c.id@ == session.bytes@.take(4) + crate::octets::be32(n));
}

/// Every address of this host, on every interface that is up and that the core did not make,
/// becomes a candidate where its family has a socket: at that socket's port, with that
/// interface's MTU, in IPv4 and in IPv6.
pub proof fn every_host_address_is_a_candidate(
    g: Gathered,
    session: SessionId,
    facts: Vec<InterfaceFacts>,
    v4: Bind,
    v6: Bind,
    times4: Seq<u64>,
    times6: Seq<u64>,
    port: Port,
    j: int,
    k: int,
)
    requires
        gathers(g, session, Some(facts), v4, v6, times4, times6),
        0 <= j < facts@.len(),
        facts@[j].is_up,
        !facts@[j].is_overlay,
        0 <= k < facts@[j].addresses@.len(),
        is_reachable(facts@[j].addresses@[k].address),
        facts@[j].addresses@[k].address is V4 ==> facts@[j].addresses@[k].len == 32 && v4
            == Bind::Bound(port),
        facts@[j].addresses@[k].address is V6 ==> facts@[j].addresses@[k].len == 128 && v6
            == Bind::Bound(port),
    ensures
        exists|c: int|
            0 <= c < g.candidates@.len() && (#[trigger] g.candidates@[c]).endpoint == (Endpoint {
                address: facts@[j].addresses@[k].address,
                port,
            }) && g.candidates@[c].mtu_hint == facts@[j].mtu,
        facts@[j].addresses@[k].address is V4 ==> g.v4 is Gathered,
        facts@[j].addresses@[k].address is V6 ==> g.v6 is Gathered,
{
    let address = facts@[j].addresses@[k].address;
    let family = address.family_of();
    let (times, bind) = if address is V4 {
        (times4, v4)
    } else {
        (times6, v6)
    };
    let all = reported_by(Some(facts), family);
    let list = looked_at(all, times);
    let i = an_address_of_a_link_is_reported(facts@, family, j, k);
    assert(list[i].prefix == all[i].prefix && list[i].mtu == all[i].mtu);
    let c = a_usable_host_is_among_the_candidates(list, i);
    let n4 = contributes(v4, looked_at(reported_by(Some(facts), AddressFamily::V4), times4));
    let at = if address is V4 {
        c
    } else {
        n4 + c
    };
    let named = candidates_in(list)[c];
    assert(host_of(named.prefix) == Some(address));
    if address is V4 {
        assert(g.candidates@.take(n4 as int)[c] == g.candidates@[c]);
    }
    assert(g.candidates@[at].endpoint == (Endpoint { address, port }));
}

/// A family that the host cannot open, whose bind was refused, or that has no address says
/// so, each as itself, and contributes no candidate.
pub proof fn a_family_says_why_it_has_nothing(
    g: Gathered,
    session: SessionId,
    interfaces: Option<Vec<InterfaceFacts>>,
    v4: Bind,
    v6: Bind,
    times4: Seq<u64>,
    times6: Seq<u64>,
)
    requires
        gathers(g, session, interfaces, v4, v6, times4, times6),
    ensures
        v4 is Unsupported ==> g.v4 == FamilyOutcome::Unsupported,
        v6 is Unsupported ==> g.v6 == FamilyOutcome::Unsupported,
        v4 is Refused ==> g.v4 == FamilyOutcome::Refused,
        v6 is Refused ==> g.v6 == FamilyOutcome::Refused,
        interfaces is None && v4 is Bound ==> g.v4 == FamilyOutcome::NoAddress,
        interfaces is None && v6 is Bound ==> g.v6 == FamilyOutcome::NoAddress,
        interfaces is None || !(v4 is Bound) && !(v6 is Bound) ==> g.candidates@.len() == 0,
{
    if interfaces is None {
        assert(looked_at(reported_by(interfaces, AddressFamily::V4), times4) =~= Seq::empty());
        assert(looked_at(reported_by(interfaces, AddressFamily::V6), times6) =~= Seq::empty());
    }
}

/// Every candidate that is due and of the peer's own family is probed, from a socket that
/// reaches the peer; where there is such a socket and the peer's endpoint is known there is
/// always a plan.
pub proof fn what_is_due_is_probed(
    sockets: Seq<SocketFamily>,
    due: Seq<Candidate>,
    peer: Endpoint,
    plan: Option<(usize, Vec<Candidate>)>,
    i: int,
)
    requires
        plans_probes(sockets, due, Some(peer), plan),
        0 <= i < due.len(),
        due[i].endpoint.address is V4 == peer.address is V4,
    ensures
        sockets.contains(SocketFamily::V6DualStack) || (peer.address is V4 && sockets.contains(
            SocketFamily::V4,
        )) || (peer.address is V6 && sockets.contains(SocketFamily::V6Only)) ==> plan is Some,
        plan matches Some((at, probes)) ==> {
            &&& probes@.contains(due[i])
            &&& at < sockets.len()
            &&& peer.address is V4 ==> sockets[at as int] != SocketFamily::V6Only
            &&& peer.address is V6 ==> sockets[at as int] != SocketFamily::V4
        },
{
    let family = peer.address.family_of();
    if sockets.contains(SocketFamily::V6DualStack) {
        let s = choose|s: int| 0 <= s < sockets.len() && sockets[s] == SocketFamily::V6DualStack;
        assert(crate::establish::reaches(sockets[s], family));
    }
    if sockets.contains(SocketFamily::V4) {
        let s = choose|s: int| 0 <= s < sockets.len() && sockets[s] == SocketFamily::V4;
        assert(crate::establish::reaches(sockets[s], AddressFamily::V4));
    }
    if sockets.contains(SocketFamily::V6Only) {
        let s = choose|s: int| 0 <= s < sockets.len() && sockets[s] == SocketFamily::V6Only;
        assert(crate::establish::reaches(sockets[s], AddressFamily::V6));
    }
    a_due_candidate_is_selected(due, family, i);
}

proof fn a_due_candidate_is_selected(due: Seq<Candidate>, family: AddressFamily, i: int)
    requires
        0 <= i < due.len(),
        due[i].endpoint.address.family_of() == family,
    ensures
        crate::establish::same_family(due, family).contains(due[i]),
    decreases due.len(),
{
    let front = due.drop_last();
    let some = crate::establish::same_family(front, family);
    let all = crate::establish::same_family(due, family);
    if i < front.len() {
        a_due_candidate_is_selected(front, family, i);
        let j = choose|j: int| 0 <= j < some.len() && some[j] == front[i];
        assert(all[j] == due[i]);
    } else {
        assert(all[all.len() - 1] == due[i]);
    }
}

/// A probe changes how its own candidate stands and no other's: probing where it left the
/// host, and failed for want of a route where it did not.
pub proof fn a_probe_marks_its_candidate(rows: Seq<Row>, id: [u8; 8], sent: bool, i: int)
    requires
        0 <= i < rows.len(),
    ensures
        probed_rows(rows, id, sent).len() == rows.len(),
        rows[i].candidate.id == id ==> probed_rows(rows, id, sent)[i].standing == (if sent {
            Standing::Probing
        } else {
            Standing::Failed(ReasonCode::NetNoRoute)
        }),
        rows[i].candidate.id != id ==> probed_rows(rows, id, sent)[i] == rows[i],
{
}

} // verus!
