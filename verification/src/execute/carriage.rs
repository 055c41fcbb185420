//! Starting, stepping and stopping what carries packets.
//!
//! A session is carried directly, by a pump onto its socket, or through a relay leg.
//! The tunnel is the same in both: a leg carries sealed records, and holds no key that
//! could open one.

use vstd::prelude::*;

use crate::datapath::frame::{a_header_round_trips, header_octets, header_of, is_data_frame,
    DataHeader, ReceiverIndex, HEADER_BYTES, TAG_BYTES};
use crate::datapath::outcome::{Refused, Step};
use crate::datapath::{Datapath, Pump, PumpParts};
use crate::enforce::MTU;
use crate::instance::{Core, CoreModel};
use crate::octets;
use crate::reason::{Component, Diagnostic, ReasonCode};
use crate::session::PathClass;
use crate::session_table::{Established, SessionModel};
use crate::types::SessionId;

verus! {

/// How long a stepped receive waits before it gives the tick back, in milliseconds.
pub const STEP_BUDGET_MS: u64 = 1;

/// The class of a path that a relay carries.
pub const RELAYED: PathClass = PathClass::Relayed;

/// How the host runs spawned work.
#[derive(Debug, Clone, Copy, PartialEq, Eq, Structural)]
pub enum RuntimeKind {
    /// Beside the caller.
    Concurrent,
    /// Inline: an unbounded loop would never return.
    VirtualTime,
}

/// What to do to start a pump.
#[derive(Debug)]
pub enum StartStep {
    /// Nothing: whether a pump runs.
    Done(bool),
    /// Spawn both directions of this pump.
    Spawn(Pump),
}

/// The tunnel whose pump is to be built: there is an interface to pump into, the
/// session has a tunnel without a pump, and the socket that it was established on.
pub open spec fn to_pump(m: CoreModel, session_id: SessionId) -> Option<Established> {
    if m.enforcement.handle is None || !m.sessions.contains_key(session_id.bytes@) {
        None
    } else {
        let session = m.sessions[session_id.bytes@];
        match session.established {
            Some(established) if !established.pump && session.sockets.len() > 0 => Some(
                established,
            ),
            _ => None,
        }
    }
}

/// A pump that was built earlier runs by itself.
pub open spec fn pumps_already(m: CoreModel, session_id: SessionId) -> bool {
    &&& m.enforcement.handle is Some
    &&& m.sessions.contains_key(session_id.bytes@)
    &&& m.sessions[session_id.bytes@].established matches Some(e)
    &&& e.pump
    &&& e.spawned
}

/// The session, with its tunnel replaced.
pub open spec fn with_tunnel(m: CoreModel, session_id: SessionId, e: Established) -> CoreModel {
    m.with_session(
        SessionModel { established: Some(e), ..m.sessions[session_id.bytes@] },
    )
}

/// What starting a session's pump leaves, and what is to be done.
pub open spec fn pump_starts(
    m: CoreModel,
    session_id: SessionId,
    datapath: Datapath,
    resume_type: u8,
    after: CoreModel,
    step: StartStep,
) -> bool {
    match to_pump(m, session_id) {
        None => {
            &&& step == StartStep::Done(pumps_already(m, session_id))
            &&& after == m
        },
        Some(e) => if datapath == Datapath::Userspace {
            &&& step matches StartStep::Spawn(pump)
            &&& pump.wf()
            &&& pump.local_receiver == e.local_receiver
            &&& pump.peer_receiver == e.peer_receiver
            &&& pump.budget.overlay_mtu == MTU
            &&& pump.resume_type == resume_type
            &&& pump.resume is None
            &&& after == with_tunnel(
                m,
                session_id,
                (Established { pump: true, ..e }),
            )
        } else {
            &&& step == StartStep::Done(false)
            &&& after == m.diagnosed(
                Diagnostic::plain(Refused::KernelOffload.code(), Component::TunnelEngine),
            )
        },
    }
}

/// Builds the pump of an established tunnel. A session whose pump is built keeps it. An
/// interface that does not exist yet is no failure: the tunnel is live either way, and
/// this is asked again once there is one. A pump that is refused is reported.
pub fn start(core: &mut Core, session_id: SessionId, datapath: Datapath, resume_type: u8) -> (step:
    StartStep)
    requires
        old(core).wf(),
        old(core)@.room(1),
    ensures
        final(core).wf(),
        pump_starts(old(core)@, session_id, datapath, resume_type, final(core)@, step),
{
    if core.enforcement.handle().is_none() {
        return StartStep::Done(false);
    }
    let established = match core.sessions.get(session_id) {
        None => {
            return StartStep::Done(false);
        },
        Some(entry) => {
            match entry.established {
                None => {
                    return StartStep::Done(false);
                },
                Some(established) => {
                    if established.pump {
                        return StartStep::Done(established.spawned);
                    }
                    if entry.sockets.len() == 0 {
                        return StartStep::Done(false);
                    }
                    established
                },
            }
        },
    };
    let parts = PumpParts {
        datapath,
        local_receiver: established.local_receiver,
        peer_receiver: established.peer_receiver,
        overlay_mtu: MTU,
        resume_type,
    };
    match Pump::new(parts) {
        Err(refused) => {
            core.publish_diagnostic(refused.diagnostic());
            StartStep::Done(false)
        },
        Ok(pump) => {
            if let Some(entry) = core.sessions.take(session_id) {
                let mut entry = entry;
                entry.established = Some(Established { pump: true, ..established });
                core.sessions.put(entry);
            }
            assert(core@ =~= with_tunnel(
                old(core)@,
                session_id,
                (Established { pump: true, ..established }),
            ));
            StartStep::Spawn(pump)
        },
    }
}

/// What became of spawning: whether the pump runs, and whether it is to be stopped.
#[derive(Debug, Clone, Copy, PartialEq, Eq, Structural)]
pub struct Spawned {
    /// Both directions run by themselves.
    pub running: bool,
    /// One runs without the other: both are to end.
    pub cancel: bool,
}

/// What spawning the two directions leaves, and what became of it.
pub open spec fn both_spawned(
    m: CoreModel,
    session_id: SessionId,
    kind: RuntimeKind,
    outbound: bool,
    inbound: bool,
    after: CoreModel,
    s: Spawned,
) -> bool {
    &&& s.running == (kind == RuntimeKind::Concurrent && outbound && inbound)
    &&& s.cancel == (kind == RuntimeKind::Concurrent && outbound != inbound)
    &&& after == (if m.sessions.contains_key(session_id.bytes@) {
        match m.sessions[session_id.bytes@].established {
            Some(e) => with_tunnel(
                m,
                session_id,
                (Established { spawned: s.running, cancelled: e.cancelled || s.cancel, ..e }),
            ),
            None => m,
        }
    } else {
        m
    })
}

/// Takes how spawning the two directions came out. A runtime that runs spawned work
/// inline is not asked. One direction without the other is a half-open tunnel that
/// still emits packets, so both are told to stop.
pub fn spawn_both(
    core: &mut Core,
    session_id: SessionId,
    kind: RuntimeKind,
    outbound: bool,
    inbound: bool,
) -> (s: Spawned)
    requires
        old(core).wf(),
    ensures
        final(core).wf(),
        both_spawned(old(core)@, session_id, kind, outbound, inbound, final(core)@, s),
{
    let concurrent = kind == RuntimeKind::Concurrent;
    let s = Spawned {
        running: concurrent && outbound && inbound,
        cancel: concurrent && outbound != inbound,
    };
    if let Some(entry) = core.sessions.take(session_id) {
        let mut entry = entry;
        if let Some(e) = entry.established {
            entry.established = Some(
                Established { spawned: s.running, cancelled: e.cancelled || s.cancel, ..e },
            );
        }
        core.sessions.put(entry);
        assert(old(core)@.sessions.remove(session_id.bytes@).insert(
            session_id.bytes@,
            entry@,
        ) =~= old(core)@.sessions.insert(session_id.bytes@, entry@));
        assert(old(core)@.sessions.insert(
            session_id.bytes@,
            old(core)@.sessions[session_id.bytes@],
        ) =~= old(core)@.sessions);
    }
    assert(core@ =~= (if old(core)@.sessions.contains_key(session_id.bytes@) {
        match old(core)@.sessions[session_id.bytes@].established {
            Some(e) => with_tunnel(
                old(core)@,
                session_id,
                (Established { spawned: s.running, cancelled: e.cancelled || s.cancel, ..e }),
            ),
            None => old(core)@,
        }
    } else {
        old(core)@
    }));
    s
}

/// A pump that no runtime runs by itself, and that was not told to stop, is stepped.
pub open spec fn stepped(m: CoreModel, session_id: SessionId) -> bool {
    &&& m.sessions.contains_key(session_id.bytes@)
    &&& m.sessions[session_id.bytes@].established matches Some(e)
    &&& !e.spawned
    &&& e.pump
    &&& !e.cancelled
}

/// Whether a session's pump is to be stepped, once in each direction. One that runs by
/// itself is not: that would put two readers on one socket.
#[must_use]
pub fn steps(core: &Core, session_id: SessionId) -> (b: bool)
    requires
        core.wf(),
    ensures
        b == stepped(core@, session_id),
{
    match core.sessions.get(session_id) {
        None => false,
        Some(entry) => match entry.established {
            None => false,
            Some(e) => !e.spawned && e.pump && !e.cancelled,
        },
    }
}

/// How many octets a step moved.
pub open spec fn octets_moved(step: Step) -> usize {
    match step {
        Step::Moved(bytes) => bytes,
        _ => 0,
    }
}

/// How many octets the two steps of a tick moved.
#[must_use]
pub fn step(outbound: Step, inbound: Step) -> (moved: usize)
    requires
        octets_moved(outbound) + octets_moved(inbound) <= usize::MAX,
    ensures
        moved == octets_moved(outbound) + octets_moved(inbound),
{
    let mut moved: usize = 0;
    if let Step::Moved(bytes) = outbound {
        moved += bytes;
    }
    if let Step::Moved(bytes) = inbound {
        moved += bytes;
    }
    moved
}

/// What opening a relay leg is to do next.
#[derive(Debug, Clone, Copy, PartialEq, Eq)]
pub enum RelayStep {
    /// Nothing: how it ended.
    Done(Result<(), Diagnostic>),
    /// Open a leg.
    Open,
    /// Bind the leg that was opened.
    Bind,
}

/// A refusal that the relay client reports.
pub open spec fn relay_refuses(code: ReasonCode) -> Diagnostic {
    Diagnostic::plain(code, Component::RelayClient)
}

fn refuse(code: ReasonCode) -> (d: Diagnostic)
    ensures
        d == relay_refuses(code),
{
    Diagnostic::new(code, Component::RelayClient)
}

/// The code of a leg's refusal. One that carries none means that the relay could not
/// be reached.
pub open spec fn leg_code(code: Option<ReasonCode>) -> ReasonCode {
    match code {
        Some(code) => code,
        None => ReasonCode::RelayNoneReachable,
    }
}

fn leg_refusal(code: Option<ReasonCode>) -> (d: Diagnostic)
    ensures
        d == relay_refuses(leg_code(code)),
{
    match code {
        Some(code) => refuse(code),
        None => refuse(ReasonCode::RelayNoneReachable),
    }
}

/// What a session that no direct path carries is to do to reach a relay.
pub open spec fn relay_begin(m: CoreModel, session_id: SessionId) -> RelayStep {
    if !m.sessions.contains_key(session_id.bytes@) {
        RelayStep::Done(Err(relay_refuses(ReasonCode::NetSessionClosedByUser)))
    } else {
        let session = m.sessions[session_id.bytes@];
        if session.relay {
            RelayStep::Done(Ok(()))
        } else if !session.relay_access {
            RelayStep::Done(Err(relay_refuses(ReasonCode::RelayNoneReachable)))
        } else if session.sockets.len() == 0 {
            RelayStep::Done(Err(relay_refuses(ReasonCode::NetNoUsableCandidates)))
        } else {
            RelayStep::Open
        }
    }
}

/// Begins to reach a relay for a session that no direct path carries. A leg that is
/// bound is kept. Without credentials there is no relay to reach, and that is said.
#[must_use]
pub fn open_relay(core: &Core, session_id: SessionId) -> (step: RelayStep)
    requires
        core.wf(),
    ensures
        step == relay_begin(core@, session_id),
{
    match core.sessions.get(session_id) {
        None => RelayStep::Done(Err(refuse(ReasonCode::NetSessionClosedByUser))),
        Some(entry) => {
            if entry.relay {
                RelayStep::Done(Ok(()))
            } else if !entry.relay_access {
                RelayStep::Done(Err(refuse(ReasonCode::RelayNoneReachable)))
            } else if entry.sockets.len() == 0 {
                RelayStep::Done(Err(refuse(ReasonCode::NetNoUsableCandidates)))
            } else {
                RelayStep::Open
            }
        },
    }
}

/// What follows the opening of a leg.
pub open spec fn relay_opened(opened: Result<(), Option<ReasonCode>>) -> RelayStep {
    match opened {
        Ok(()) => RelayStep::Bind,
        Err(code) => RelayStep::Done(Err(relay_refuses(leg_code(code)))),
    }
}

/// Takes how opening the leg came out: the code of its refusal, if it carries one.
#[must_use]
pub fn leg_opened(opened: Result<(), Option<ReasonCode>>) -> (step: RelayStep)
    ensures
        step == relay_opened(opened),
{
    match opened {
        Ok(()) => RelayStep::Bind,
        Err(code) => RelayStep::Done(Err(leg_refusal(code))),
    }
}

/// How binding a leg came out.
#[derive(Debug, Clone, Copy, PartialEq, Eq)]
pub enum BindOutcome {
    /// The leg is bound.
    Bound,
    /// The leg waits for the peer's half.
    Pending,
    /// The relay refused, with this code if it carries one.
    Refused(Option<ReasonCode>),
    /// The leg failed, with this code if it carries one.
    Failed(Option<ReasonCode>),
}

/// What the binding of a leg leaves, and how reaching the relay ended.
pub open spec fn leg_binds(
    m: CoreModel,
    session_id: SessionId,
    outcome: BindOutcome,
    after: CoreModel,
    r: Result<(), Diagnostic>,
) -> bool {
    match outcome {
        BindOutcome::Bound | BindOutcome::Pending => {
            &&& r == Ok::<(), Diagnostic>(())
            &&& after == (if m.sessions.contains_key(session_id.bytes@) {
                m.with_session(
                    SessionModel { relay: true, ..m.sessions[session_id.bytes@] },
                )
            } else {
                m
            })
        },
        BindOutcome::Refused(code) | BindOutcome::Failed(code) => {
            &&& r == Err::<(), Diagnostic>(relay_refuses(leg_code(code)))
            &&& after == m
        },
    }
}

/// Takes how binding the leg came out. A leg that waits for the peer's half is held
/// like one that is bound.
pub fn leg_bound(core: &mut Core, session_id: SessionId, outcome: BindOutcome) -> (r: Result<
    (),
    Diagnostic,
>)
    requires
        old(core).wf(),
    ensures
        final(core).wf(),
        leg_binds(old(core)@, session_id, outcome, final(core)@, r),
{
    match outcome {
        BindOutcome::Bound | BindOutcome::Pending => {
            if let Some(entry) = core.sessions.take(session_id) {
                let mut entry = entry;
                entry.relay = true;
                core.sessions.put(entry);
                assert(core@.sessions =~= old(core)@.sessions.insert(
                    session_id.bytes@,
                    entry@,
                ));
            }
            assert(core@.sessions =~= (if old(core)@.sessions.contains_key(session_id.bytes@) {
                old(core)@.sessions.insert(
                    session_id.bytes@,
                    (SessionModel { relay: true, ..old(core)@.sessions[session_id.bytes@] }),
                )
            } else {
                old(core)@.sessions
            }));
            Ok(())
        },
        BindOutcome::Refused(code) | BindOutcome::Failed(code) => Err(leg_refusal(code)),
    }
}

/// Both halves of a relayed carriage: the tunnel of a session that holds a bound leg
/// and a socket.
pub open spec fn relayed_tunnel(m: CoreModel, session_id: SessionId) -> Option<Established> {
    if m.sessions.contains_key(session_id.bytes@) {
        let session = m.sessions[session_id.bytes@];
        if session.sockets.len() > 0 && session.relay {
            session.established
        } else {
            None
        }
    } else {
        None
    }
}

fn both(core: &Core, session_id: SessionId) -> (e: Option<Established>)
    requires
        core.wf(),
    ensures
        e == relayed_tunnel(core@, session_id),
{
    match core.sessions.get(session_id) {
        None => None,
        Some(entry) => {
            if entry.sockets.len() > 0 && entry.relay {
                entry.established
            } else {
                None
            }
        },
    }
}

/// Whether a relayed step has an interface to pump into.
#[must_use]
pub fn relay_step(core: &Core) -> (b: bool)
    ensures
        b == (core@.enforcement.handle is Some),
{
    core.enforcement.handle().is_some()
}

/// The index that a packet of this length is sealed for.
pub open spec fn relayed_to(m: CoreModel, session_id: SessionId, read: Option<usize>) -> Option<
    ReceiverIndex,
> {
    match (read, relayed_tunnel(m, session_id)) {
        (Some(length), Some(e)) if 0 < length <= MTU => Some(e.peer_receiver),
        _ => None,
    }
}

/// Takes a packet that was read from the interface, by its length: the index to seal
/// it for, or `None` where there is nothing to carry. A length that is zero, or above
/// what was asked for, is no packet.
#[must_use]
pub fn relay_outbound(core: &Core, session_id: SessionId, read: Option<usize>) -> (to: Option<
    ReceiverIndex,
>)
    requires
        core.wf(),
    ensures
        to == relayed_to(core@, session_id, read),
{
    match read {
        None => None,
        Some(length) => {
            if length == 0 || length > MTU as usize {
                return None;
            }
            match both(core, session_id) {
                None => None,
                Some(e) => Some(e.peer_receiver),
            }
        },
    }
}

/// The frame that carries a sealed record through a leg.
pub open spec fn relayed_frame(to: ReceiverIndex, counter: u64, record: Seq<u8>) -> Seq<u8> {
    header_octets(DataHeader { receiver: to, counter }) + record
}

/// The frame that carries a sealed record through a leg.
#[must_use]
pub fn relay_frame(to: ReceiverIndex, counter: u64, record: &[u8]) -> (wire: Vec<u8>)
    ensures
        wire@ == relayed_frame(to, counter, record@),
{
    let mut wire: Vec<u8> = Vec::new();
    DataHeader { receiver: to, counter }.write(&mut wire);
    let mut i: usize = 0;
    let ghost head = wire@;
    while i < record.len()
        invariant
            i <= record@.len(),
            wire@ == head + record@.take(i as int),
        decreases record@.len() - i,
    {
        wire.push(record[i]);
        assert(head + record@.take(i + 1) =~= (head + record@.take(i as int)).push(
            record@[i as int],
        ));
        i += 1;
    }
    assert(record@.take(record@.len() as int) =~= record@);
    assert(wire@ =~= relayed_frame(to, counter, record@));
    wire
}

/// What was seen of a relay leg, each as a fact.
#[derive(Debug, Clone, Copy, PartialEq, Eq, Structural)]
pub struct Observation {
    /// How many pings of the leg went unanswered.
    pub missed_leg_pings: u32,
    /// The leg, or the platform under it, refused.
    pub leg_hard_signal: bool,
    /// The relay's announced end has come.
    pub drain_deadline_reached: bool,
    /// The peer's half is silent.
    pub half_flow_silent: bool,
    /// The path is worse than it may be.
    pub quality_violated: bool,
    /// Every leg on the interface is dead.
    pub all_legs_on_interface_dead: bool,
    /// The relay has no room.
    pub capacity_rejected: bool,
    /// The relay's region is gone.
    pub region_failed: bool,
}

/// What a refused send says of a leg: that the leg refused, and nothing of the peer.
pub open spec fn hard_signal() -> Observation {
    Observation {
        missed_leg_pings: 0,
        leg_hard_signal: true,
        drain_deadline_reached: false,
        half_flow_silent: false,
        quality_violated: false,
        all_legs_on_interface_dead: false,
        capacity_rejected: false,
        region_failed: false,
    }
}

/// How many octets of a packet crossed, or what a refusal is observed as.
pub open spec fn crossed_out(length: usize, sent: bool) -> Result<usize, Observation> {
    if sent {
        Ok(length)
    } else {
        Err(hard_signal())
    }
}

/// Takes whether a frame went out: how many octets of the packet crossed, or what a
/// refusal is to be observed as.
pub fn relay_sent(length: usize, sent: bool) -> (r: Result<usize, Observation>)
    ensures
        r == crossed_out(length, sent),
{
    if sent {
        Ok(length)
    } else {
        Err(
            Observation {
                missed_leg_pings: 0,
                leg_hard_signal: true,
                drain_deadline_reached: false,
                half_flow_silent: false,
                quality_violated: false,
                all_legs_on_interface_dead: false,
                capacity_rejected: false,
                region_failed: false,
            },
        )
    }
}

/// The sealed record of a frame that a leg handed over, with its counter: only one
/// that is addressed to this session's tunnel.
pub open spec fn relayed_record(m: CoreModel, session_id: SessionId, wire: Seq<u8>) -> Option<
    (u64, Seq<u8>),
> {
    match relayed_tunnel(m, session_id) {
        Some(e) if is_data_frame(wire) && header_of(wire).receiver == e.local_receiver => Some(
            (header_of(wire).counter, wire.skip(HEADER_BYTES as int)),
        ),
        _ => None,
    }
}

/// Takes a frame that a leg handed over: the sealed record in it, with its counter. A
/// frame that is not one, or not for this tunnel, is dropped, and drops nothing else.
#[must_use]
pub fn relay_inbound(core: &Core, session_id: SessionId, wire: &[u8]) -> (r: Option<(u64, Vec<u8>)>)
    requires
        core.wf(),
    ensures
        match r {
            Some((counter, record)) => relayed_record(core@, session_id, wire@) == Some(
                (counter, record@),
            ),
            None => relayed_record(core@, session_id, wire@) is None,
        },
{
    match both(core, session_id) {
        None => None,
        Some(e) => match DataHeader::parse(wire) {
            Err(_) => None,
            Ok((header, record)) => {
                if header.receiver.0 != e.local_receiver.0 {
                    return None;
                }
                Some((header.counter, octets::to_vec(record)))
            },
        },
    }
}

/// How many octets of a packet crossed.
pub open spec fn crossed_in(opened: Option<usize>, written: bool) -> usize {
    match opened {
        Some(length) if written => length,
        _ => 0,
    }
}

/// Takes how the record opened and was written to the interface: how many octets
/// crossed. A record that does not open is dropped, never a teardown.
#[must_use]
pub fn relay_written(opened: Option<usize>, written: bool) -> (moved: usize)
    ensures
        moved == crossed_in(opened, written),
{
    match opened {
        Some(length) => if written { length } else { 0 },
        None => 0,
    }
}

/// What an observation was attributed to.
#[derive(Debug, Clone, Copy, PartialEq, Eq, Structural)]
pub enum Failover {
    /// A leg that was held ready took over.
    PromotedStandby,
    /// A move would not help.
    NoMove,
    /// There is no leg to take over.
    NeedsSelection,
}

/// What an observation of a leg leaves.
pub open spec fn leg_observed(
    m: CoreModel,
    session_id: SessionId,
    outcome: Failover,
    code: Option<ReasonCode>,
    after: CoreModel,
) -> bool {
    let name = session_id.bytes@;
    if m.sessions.contains_key(name) && m.sessions[name].relay {
        let told = match code {
            Some(code) => m.diagnosed(relay_refuses(code)),
            None => m,
        };
        after == (if outcome == Failover::NeedsSelection {
            told.with_session(SessionModel { relay: false, ..m.sessions[name] })
        } else {
            told
        })
    } else {
        after == m
    }
}

/// Takes what an observation of a leg was attributed to, and the code it is reported
/// under, if any. Where nothing took over there is no path for as long as a fresh
/// selection takes, so the leg is dropped and nothing sends on it.
pub fn observe(core: &mut Core, session_id: SessionId, outcome: Failover, code: Option<ReasonCode>)
    requires
        old(core).wf(),
        old(core)@.room(1),
    ensures
        final(core).wf(),
        leg_observed(old(core)@, session_id, outcome, code, final(core)@),
{
    let held = match core.sessions.get(session_id) {
        Some(entry) => entry.relay,
        None => false,
    };
    if !held {
        return;
    }
    if let Some(code) = code {
        core.publish_diagnostic(refuse(code));
    }
    match outcome {
        Failover::PromotedStandby | Failover::NoMove => {},
        Failover::NeedsSelection => {
            let ghost told = core@;
            if let Some(entry) = core.sessions.take(session_id) {
                let mut entry = entry;
                entry.relay = false;
                core.sessions.put(entry);
            }
            assert(core@ =~= told.with_session(
                SessionModel { relay: false, ..old(core)@.sessions[session_id.bytes@] },
            ));
        },
    }
}

/// A record that one end frames for the other arrives whole, under the counter it was
/// sealed with, at the tunnel whose index it carries.
pub proof fn a_relayed_record_arrives_whole(
    m: CoreModel,
    session_id: SessionId,
    counter: u64,
    record: Seq<u8>,
)
    requires
        relayed_tunnel(m, session_id) is Some,
        record.len() >= TAG_BYTES,
    ensures
        relayed_record(
            m,
            session_id,
            relayed_frame(relayed_tunnel(m, session_id)->0.local_receiver, counter, record),
        ) == Some((counter, record)),
{
    a_header_round_trips(
        DataHeader { receiver: relayed_tunnel(m, session_id)->0.local_receiver, counter },
        record,
    );
}

} // verus!
