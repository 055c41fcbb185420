//! Carrying packets: from one side's interface to the other's, directly or through a relay.

use vstd::prelude::*;

use crate::datapath::frame::{a_header_round_trips, header_octets, DataHeader, ReceiverIndex};
use crate::datapath::outcome::{Counters, Fault, PlatformError, PlatformKind, Reject, Step, Stop};
use crate::datapath::{counted, follows, steps_in, steps_out, Absorbed, Datapath, InAction, InEvent,
    InStage, OutAction, OutEvent, OutStage, Pump, TunnelError};
use crate::execute::carriage::{both_spawned, crossed_in, crossed_out, leg_binds, leg_observed,
    pump_starts, relay_begin, relay_opened, relayed_frame, relayed_record, relayed_to, stepped,
    BindOutcome, Failover, RelayStep, RuntimeKind, Spawned, StartStep};
use crate::instance::CoreModel;
use crate::octets;
use crate::reason::{Diagnostic, ReasonCode};
use crate::session_table::SessionModel;
use crate::types::{Endpoint, SessionId};

verus! {

/// Every packet of at most the overlay MTU that the interface yields is sealed whole, and
/// one that is sealed and sent counts as moved with its own length.
pub proof fn what_fits_the_mtu_is_sent(
    p: Pump,
    length: usize,
    destination: Endpoint,
    counter: u64,
    record: Vec<u8>,
    begun: (OutStage, OutAction),
    read: (OutStage, OutAction),
    sealed: (OutStage, OutAction),
    sent: (OutStage, OutAction),
)
    requires
        p.wf(),
        0 < length <= p.budget.overlay_mtu,
        steps_out(p, OutStage::Start, OutEvent::Begin { cancelled: false }, begun),
        steps_out(p, begun.0, OutEvent::Read(Ok(length)), read),
        steps_out(p, read.0, (OutEvent::Sealed { destination, counter, record }), sealed),
        steps_out(p, sealed.0, OutEvent::Sent(Ok(())), sent),
    ensures
        begun.1 == (OutAction::Read { capacity: p.budget.overlay_mtu as usize }),
        read.1 == (OutAction::Seal { length }),
        sealed.1 matches OutAction::Send { destination: to, wire } && to == destination && wire@
            == header_octets(DataHeader { receiver: p.peer_receiver, counter }) + record@,
        sent.1 == OutAction::Done(Step::Moved(length)),
        sent.0 == OutStage::Start,
{
}

/// Every record that opens to a packet of at most the overlay MTU is written to the
/// interface, whole, and counts as moved with its own length once it is written; one that
/// opens to more is dropped, and drops nothing else.
pub proof fn what_fits_the_mtu_is_written(
    p: Pump,
    length: usize,
    after: Pump,
    opened: (InStage, InAction),
    last: Pump,
    written: (InStage, InAction),
)
    requires
        p.wf(),
        steps_in(p, InStage::Opening, InEvent::Opened(Ok(length)), after, opened),
        steps_in(after, opened.0, InEvent::Written(Ok(())), last, written),
    ensures
        length <= p.budget.overlay_mtu ==> {
            &&& opened.1 == (InAction::Write { length })
            &&& written.1 == InAction::Done(Step::Moved(length))
        },
        length > p.budget.overlay_mtu ==> opened.1 == InAction::Done(
            Step::Rejected(Reject::Oversize),
        ),
        after == p,
        last == p,
{
}

/// What one side sends the other side writes. A packet of at most the MTU that both sides
/// have is read, sealed, framed and sent by the one; the other receives that datagram at the
/// front of its buffer, opens the very record, under the counter it was sealed with, and
/// writes the packet, whole. Sealing adds the tag and nothing else.
pub proof fn what_one_side_sends_the_other_writes(
    a: Pump,
    b: Pump,
    length: usize,
    destination: Endpoint,
    counter: u64,
    record: Vec<u8>,
    buffer: Vec<u8>,
    read: (OutStage, OutAction),
    sealed: (OutStage, OutAction),
    begun: (InStage, InAction),
    b0: Pump,
    received: (InStage, InAction),
    b1: Pump,
    opened: (InStage, InAction),
    b2: Pump,
    written: (InStage, InAction),
    b3: Pump,
)
    requires
        a.wf(),
        b.wf(),
        a.budget.overlay_mtu == b.budget.overlay_mtu,
        a.peer_receiver == b.local_receiver,
        b.resume_type != 4,
        0 < length <= a.budget.overlay_mtu,
        record@.len() == length + 16,
        steps_out(a, OutStage::Reading, OutEvent::Read(Ok(length)), read),
        steps_out(a, read.0, (OutEvent::Sealed { destination, counter, record }), sealed),
        steps_in(b, InStage::Start, InEvent::Begin { cancelled: false }, b0, begun),
        begun.1 matches InAction::Receive { capacity } ==> buffer@.len() == capacity,
        sealed.1 matches OutAction::Send { wire, .. } ==> wire@.is_prefix_of(buffer@),
        steps_in(
            b0,
            begun.0,
            (InEvent::Received {
                len: (record@.len() + 16) as usize,
                truncated: false,
                wire: buffer,
            }),
            b1,
            received,
        ),
        steps_in(b1, received.0, InEvent::Opened(Ok(length)), b2, opened),
        steps_in(b2, opened.0, InEvent::Written(Ok(())), b3, written),
    ensures
        read.1 == (OutAction::Seal { length }),
        sealed.1 matches OutAction::Send { wire, destination: to } && to == destination && wire@.len()
            == record@.len() + 16,
        begun.1 == (InAction::Receive { capacity: (b.budget.overlay_mtu + 32) as usize }),
        received.1 matches InAction::Open { counter: c, start, end } && c == counter && start < end
            <= buffer@.len() && buffer@.subrange(start as int, end as int) == record@,
        opened.1 == (InAction::Write { length }),
        written.1 == InAction::Done(Step::Moved(length)),
        b3 == b,
{
    let h = DataHeader { receiver: a.peer_receiver, counter };
    let sent = header_octets(h) + record@;
    a_header_round_trips(h, record@);
    octets::le32_round_trip(h.receiver.0);
    octets::le64_round_trip(h.counter);
    assert(header_octets(h).len() == 16);
    assert(buffer@.take(sent.len() as int) =~= sent);
    assert(buffer@[0] == sent[0]);
    assert(buffer@.subrange(16, sent.len() as int) =~= record@);
}

/// Nothing that is not addressed to this tunnel, not a data frame, cut or too long is
/// opened: each is dropped under its own name, and the pump stays as it is.
pub proof fn what_is_not_for_this_tunnel_is_dropped(
    p: Pump,
    len: usize,
    truncated: bool,
    wire: Vec<u8>,
    after: Pump,
    r: (InStage, InAction),
)
    requires
        p.wf(),
        wire@.len() == p.budget.overlay_mtu + 32,
        steps_in(p, InStage::Receiving, (InEvent::Received { len, truncated, wire }), after, r),
    ensures
        after == p,
        truncated ==> r.1 == InAction::Done(Step::Rejected(Reject::Truncated)),
        !truncated && len > wire@.len() ==> r.1 == InAction::Done(Step::Rejected(Reject::Oversize)),
        !truncated && len <= wire@.len() && wire@[0] == p.resume_type ==> r.1
            == (InAction::ReadResume { len }),
        !truncated && len <= wire@.len() && wire@[0] != p.resume_type && (len < 32 || wire@[0] != 4
            || wire@[1] != 0 || wire@[2] != 0 || wire@[3] != 0) ==> r.1 == InAction::Done(
            Step::Rejected(Reject::Malformed),
        ),
        r.1 is Open ==> len >= 32 && wire@[0] == 4 && wire@.subrange(4, 8) == octets::le32(
            p.local_receiver.0,
        ),
        !truncated && 32 <= len <= wire@.len() && wire@[0] != p.resume_type && wire@[0] == 4 && wire@[1]
            == 0 && wire@[2] == 0 && wire@[3] == 0 && wire@.subrange(4, 8) != octets::le32(
            p.local_receiver.0,
        ) ==> r.1 == InAction::Done(Step::Rejected(Reject::ForeignReceiver)),
{
    if len <= wire@.len() && len >= 32 {
        assert(wire@.take(len as int).subrange(4, 8) =~= wire@.subrange(4, 8));
        octets::le32_round_trip(p.local_receiver.0);
        an_index_is_its_octets(wire@.subrange(4, 8));
    }
}

proof fn an_index_is_its_octets(s: Seq<u8>)
    requires
        s.len() == 4,
    ensures
        octets::le32(octets::le32_value(s)) == s,
{
    let (a, b, c, d) = (s[0] as int, s[1] as int, s[2] as int, s[3] as int);
    let x = a + b * 0x100 + c * 0x1_0000 + d * 0x100_0000;
    assert(octets::le32_value(s) == x);
    let (r1, r2, r3) = (b + c * 0x100 + d * 0x1_0000, c + d * 0x100, d);
    assert(x == a + 0x100 * r1);
    assert(r1 == b + 0x100 * r2);
    assert(r2 == c + 0x100 * r3);
    assert(x % 0x100 == a && x / 0x100 == r1);
    assert(r1 % 0x100 == b && r1 / 0x100 == r2);
    assert(r2 % 0x100 == c && r2 / 0x100 == r3);
    assert(x / 0x1_0000 == r2);
    assert(x / 0x100_0000 == r3);
    let t = octets::le32(octets::le32_value(s));
    assert(t[0] == s[0] && t[1] == s[1] && t[2] == s[2] && t[3] == s[3]);
    assert(t =~= s);
}

/// What the tunnel answers to an opening that it refuses: a replay and a forgery are
/// dropped, and only what concerns this side's own state stops the pump.
pub proof fn a_refused_opening_is_told_apart(
    p: Pump,
    error: TunnelError,
    after: Pump,
    r: (InStage, InAction),
)
    requires
        steps_in(p, InStage::Opening, InEvent::Opened(Err(error)), after, r),
    ensures
        error == TunnelError::Replay ==> r.1 == InAction::Done(Step::Rejected(Reject::Replay)),
        error == TunnelError::Crypto ==> r.1 == InAction::Done(
            Step::Rejected(Reject::Unauthenticated),
        ),
        error == TunnelError::NotEstablished ==> r.1 == InAction::Done(
            Step::Stopped(Stop::Fault(Fault::NotEstablished)),
        ),
        error == TunnelError::CounterExhausted ==> r.1 == InAction::Done(
            Step::Stopped(Stop::RekeyRequired),
        ),
        error == TunnelError::TranscriptMismatch ==> r.1 == InAction::Done(
            Step::Stopped(Stop::Fault(Fault::TranscriptMismatch)),
        ),
        error == TunnelError::Unusable ==> r.1 == InAction::Done(
            Step::Stopped(Stop::Fault(Fault::KeyStateUnusable)),
        ),
        after == p,
{
}

/// A packet that could not be sealed stops the pump: under the tunnel's own reason, and a
/// forgery or a replay, which sealing cannot meet, is an unusable key state.
pub proof fn a_refused_sealing_stops_the_pump(
    p: Pump,
    length: usize,
    error: TunnelError,
    r: (OutStage, OutAction),
)
    requires
        steps_out(p, OutStage::Sealing(length), OutEvent::SealFailed(error), r),
    ensures
        r.1 == OutAction::Done(
            Step::Stopped(
                match error {
                    TunnelError::NotEstablished => Stop::Fault(Fault::NotEstablished),
                    TunnelError::CounterExhausted => Stop::RekeyRequired,
                    TunnelError::TranscriptMismatch => Stop::Fault(Fault::TranscriptMismatch),
                    TunnelError::Replay | TunnelError::Crypto | TunnelError::Unusable =>
                        Stop::Fault(Fault::KeyStateUnusable),
                },
            ),
        ),
{
}

/// What the adapter refuses means the same wherever it is asked: reading and writing the
/// interface, and sending and receiving. What may succeed later is put off; being asked to
/// stop, or to shut down, stops the pump as that; and anything else is this device's fault.
pub proof fn the_adapter_means_the_same_everywhere(
    p: Pump,
    length: usize,
    error: PlatformError,
    step: Step,
    read: (OutStage, OutAction),
    sent: (OutStage, OutAction),
    b: Pump,
    received: (InStage, InAction),
    c: Pump,
    written: (InStage, InAction),
)
    requires
        step == (match error.kind {
            PlatformKind::Cancelled => Step::Stopped(Stop::Cancelled),
            PlatformKind::ShuttingDown => Step::Stopped(Stop::ShuttingDown),
            PlatformKind::Transient => Step::Deferred,
            PlatformKind::Refused => Step::Stopped(Stop::Fault(Fault::Device(error))),
        }),
        steps_out(p, OutStage::Reading, OutEvent::Read(Err(error)), read),
        steps_out(p, OutStage::Sending(length), OutEvent::Sent(Err(error)), sent),
        steps_in(p, InStage::Receiving, InEvent::ReceiveFailed(error), b, received),
        steps_in(p, InStage::Writing(length), InEvent::Written(Err(error)), c, written),
    ensures
        read.1 == OutAction::Done(step),
        sent.1 == OutAction::Done(step),
        received.1 == InAction::Done(step),
        written.1 == InAction::Done(step),
        b == p,
        c == p,
{
}

/// A stop that was requested ends a step where it waits, in either direction, and nothing
/// to read is no failure.
pub proof fn a_stop_is_honoured_where_it_waits(
    p: Pump,
    out: (OutStage, OutAction),
    reading: (OutStage, OutAction),
    idle: (OutStage, OutAction),
    b: Pump,
    begun: (InStage, InAction),
    c: Pump,
    receiving: (InStage, InAction),
)
    requires
        steps_out(p, OutStage::Start, OutEvent::Begin { cancelled: true }, out),
        steps_out(p, OutStage::Reading, OutEvent::ReadCancelled, reading),
        steps_out(p, OutStage::Reading, OutEvent::Read(Ok(0)), idle),
        steps_in(p, InStage::Start, InEvent::Begin { cancelled: true }, b, begun),
        steps_in(p, InStage::Receiving, InEvent::ReceiveCancelled, c, receiving),
    ensures
        out.1 == OutAction::Done(Step::Stopped(Stop::Cancelled)),
        reading.1 == OutAction::Done(Step::Stopped(Stop::Cancelled)),
        idle.1 == OutAction::Done(Step::Idle),
        begun.1 == InAction::Done(Step::Stopped(Stop::Cancelled)),
        receiving.1 == InAction::Done(Step::Stopped(Stop::Cancelled)),
        b == p,
        c == p,
{
}

/// A resume that is addressed to this tunnel is set aside, whole and in place of an earlier
/// one, and counts as handed over; one that is not is dropped and changes nothing.
pub proof fn a_resume_is_set_aside_for_its_tunnel(
    p: Pump,
    receiver: ReceiverIndex,
    payload: Vec<u8>,
    after: Pump,
    r: (InStage, InAction),
)
    requires
        steps_in(p, InStage::Resuming, InEvent::ResumeRead(Some((receiver, payload))), after, r),
    ensures
        receiver == p.local_receiver ==> after.resume == Some(payload) && r.1 == InAction::Done(
            Step::Diverted,
        ),
        receiver != p.local_receiver ==> after == p && r.1 == InAction::Done(
            Step::Rejected(Reject::ForeignReceiver),
        ),
        after.budget == p.budget,
        after.local_receiver == p.local_receiver,
        after.peer_receiver == p.peer_receiver,
{
}

/// What a loop has counted of packets, octets and everything else that was no packet.
pub open spec fn tally(c: Counters) -> int {
    c.packets + c.diverted + c.idle_waits + c.rejected_malformed + c.rejected_foreign_receiver
        + c.rejected_oversize + c.rejected_unauthenticated + c.rejected_replay
}

/// Every step is counted once, while no counter is at its end: a packet with its octets, and
/// only a packet with any. Only a stop ends the loop, and it hands over what was counted;
/// after a step that had nothing to do it waits.
pub proof fn a_step_is_counted_once(c: Counters, step: Step)
    requires
        tally(c) < u64::MAX,
        c.adapter_transient < u64::MAX,
        c.bytes + (if step is Moved {
            step->Moved_0 as int
        } else {
            0
        }) <= u64::MAX,
    ensures
        ({
            let after = counted(c, step);
            &&& !(step is Stopped) ==> tally(after) == tally(c) + 1
            &&& step is Stopped ==> after == c
            &&& after.packets == c.packets + (if step is Moved {
                1int
            } else {
                0
            })
            &&& after.bytes == c.bytes + (if step is Moved {
                step->Moved_0 as int
            } else {
                0
            })
            &&& after.adapter_transient == c.adapter_transient + (if step is Deferred {
                1int
            } else {
                0
            })
            &&& after.diverted == c.diverted + (if step is Diverted {
                1int
            } else {
                0
            })
            &&& step == Step::Rejected(Reject::Replay) ==> after.rejected_replay
                == c.rejected_replay + 1
            &&& step == Step::Rejected(Reject::Unauthenticated) ==> after.rejected_unauthenticated
                == c.rejected_unauthenticated + 1
        }),
        follows(c, step) is End <==> step is Stopped,
        step matches Step::Stopped(stop) ==> (follows(c, step) matches Absorbed::End(report)
            && report.stop == stop && report.counters == c),
        follows(c, step) is Wait <==> step is Idle || step is Deferred,
{
}

/// A session whose tunnel was established gets its pump as soon as there is an interface: a
/// pump for the very indices that the handshake agreed on and for the overlay MTU, once. A
/// session without a tunnel, without a socket or without an interface gets none, and that is
/// no failure.
pub proof fn an_established_tunnel_gets_its_pump(
    m: CoreModel,
    session_id: SessionId,
    resume_type: u8,
    after: CoreModel,
    step: StartStep,
    again: CoreModel,
    second: StartStep,
)
    requires
        m.named(),
        pump_starts(m, session_id, Datapath::Userspace, resume_type, after, step),
        pump_starts(after, session_id, Datapath::Userspace, resume_type, again, second),
    ensures
        ({
            let name = session_id.bytes@;
            let session = m.sessions[name];
            let ready = m.sessions.contains_key(name) && session.established is Some
                && session.sockets.len() > 0 && m.enforcement.handle is Some;
            &&& ready && !session.established->0.pump ==> {
                &&& step matches StartStep::Spawn(pump)
                &&& pump.local_receiver == session.established->0.local_receiver
                &&& pump.peer_receiver == session.established->0.peer_receiver
                &&& pump.budget.overlay_mtu == 1280
                &&& pump.budget.plaintext == 1280
                &&& pump.resume_type == resume_type
                &&& after.sessions[name].established is Some
                &&& after.sessions[name].established->0.pump
                &&& after.sessions[name].established->0.peer_receiver
                    == session.established->0.peer_receiver
                &&& after.enforcement == m.enforcement
            }
            &&& !ready || session.established->0.pump ==> step is Done && after == m
            &&& second is Done && again == after
        }),
{
}

/// A pump runs by itself where both its directions do. Where one does and the other does
/// not, both are told to stop; and what was told to stop is not stepped either.
pub proof fn no_tunnel_is_left_half_open(
    m: CoreModel,
    session_id: SessionId,
    outbound: bool,
    inbound: bool,
    kind: RuntimeKind,
    after: CoreModel,
    s: Spawned,
)
    requires
        m.named(),
        m.sessions.contains_key(session_id.bytes@),
        m.sessions[session_id.bytes@].established matches Some(e) && e.pump && !e.cancelled,
        both_spawned(m, session_id, kind, outbound, inbound, after, s),
    ensures
        s.running <==> kind == RuntimeKind::Concurrent && outbound && inbound,
        s.cancel <==> kind == RuntimeKind::Concurrent && outbound != inbound,
        after.sessions[session_id.bytes@].established matches Some(e) && e.spawned == s.running
            && e.cancelled == s.cancel && e.pump,
        stepped(after, session_id) <==> !s.running && !s.cancel,
        after.sessions[session_id.bytes@].machine == m.sessions[session_id.bytes@].machine,
        after.sessions[session_id.bytes@].relay == m.sessions[session_id.bytes@].relay,
{
}

/// A session with credentials and a socket reaches for a relay: a leg is opened, and then
/// bound, and a leg that is bound, or waits for the peer's half, is held from then on, so
/// that it is not opened again. Nothing else of the session changes.
pub proof fn a_relay_leg_is_reached_and_held(
    m: CoreModel,
    session_id: SessionId,
    outcome: BindOutcome,
    after: CoreModel,
    r: Result<(), Diagnostic>,
)
    requires
        m.named(),
        m.sessions.contains_key(session_id.bytes@),
        m.sessions[session_id.bytes@].relay_access,
        !m.sessions[session_id.bytes@].relay,
        m.sessions[session_id.bytes@].sockets.len() > 0,
        outcome is Bound || outcome is Pending,
        leg_binds(m, session_id, outcome, after, r),
    ensures
        relay_begin(m, session_id) == RelayStep::Open,
        relay_opened(Ok(())) == RelayStep::Bind,
        r is Ok,
        after.sessions[session_id.bytes@] == (SessionModel {
            relay: true,
            ..m.sessions[session_id.bytes@]
        }),
        relay_begin(after, session_id) matches RelayStep::Done(Ok(_)),
{
}

/// A relay that cannot be reached is said to be so, each time by its own name: no session,
/// no credentials, no socket, or what the relay itself gave; and nothing is held then.
pub proof fn an_unreachable_relay_is_named(
    m: CoreModel,
    session_id: SessionId,
    code: Option<ReasonCode>,
    after: CoreModel,
    r: Result<(), Diagnostic>,
)
    requires
        leg_binds(m, session_id, BindOutcome::Refused(code), after, r) || leg_binds(
            m,
            session_id,
            BindOutcome::Failed(code),
            after,
            r,
        ),
    ensures
        !m.sessions.contains_key(session_id.bytes@) ==> (relay_begin(m, session_id) matches
            RelayStep::Done(Err(d)) && d.code == ReasonCode::NetSessionClosedByUser),
        m.sessions.contains_key(session_id.bytes@) && !m.sessions[session_id.bytes@].relay ==> {
            &&& !m.sessions[session_id.bytes@].relay_access ==> (relay_begin(m, session_id) matches
                RelayStep::Done(Err(d)) && d.code == ReasonCode::RelayNoneReachable)
            &&& m.sessions[session_id.bytes@].relay_access
                && m.sessions[session_id.bytes@].sockets.len() == 0 ==> (relay_begin(
                m,
                session_id,
            ) matches RelayStep::Done(Err(d)) && d.code == ReasonCode::NetNoUsableCandidates)
        },
        relay_opened(Err(code)) matches RelayStep::Done(Err(d)) && d.code == (match code {
            Some(code) => code,
            None => ReasonCode::RelayNoneReachable,
        }),
        r matches Err(d) && d.code == (match code {
            Some(code) => code,
            None => ReasonCode::RelayNoneReachable,
        }),
        after == m,
{
}

/// Through a relay too, what one side sends arrives: a packet of at most the overlay MTU, on
/// a session with a tunnel, a leg and a socket, is sealed for the index that the peer told;
/// the frame that carries the record is taken by the peer's session whose index that is, and
/// yields the very record, under its counter. As many octets count as crossed as the packet
/// has, where it was sent and written, and else none.
pub proof fn a_relayed_packet_arrives(
    m: CoreModel,
    a: SessionId,
    n: CoreModel,
    b: SessionId,
    length: usize,
    counter: u64,
    record: Seq<u8>,
)
    requires
        m.sessions.contains_key(a.bytes@),
        m.sessions[a.bytes@].established is Some,
        m.sessions[a.bytes@].relay,
        m.sessions[a.bytes@].sockets.len() > 0,
        n.sessions.contains_key(b.bytes@),
        n.sessions[b.bytes@].established is Some,
        n.sessions[b.bytes@].relay,
        n.sessions[b.bytes@].sockets.len() > 0,
        m.sessions[a.bytes@].established->0.peer_receiver
            == n.sessions[b.bytes@].established->0.local_receiver,
        record.len() >= 16,
        0 < length <= 1280,
    ensures
        relayed_to(m, a, Some(length)) == Some(m.sessions[a.bytes@].established->0.peer_receiver),
        relayed_record(
            n,
            b,
            relayed_frame(relayed_to(m, a, Some(length))->0, counter, record),
        ) == Some((counter, record)),
        crossed_out(length, true) matches Ok(moved) && moved == length,
        crossed_out(length, false) matches Err(seen) && seen.leg_hard_signal
            && !seen.half_flow_silent && !seen.drain_deadline_reached && seen.missed_leg_pings == 0,
        crossed_in(Some(length), true) == length,
        crossed_in(Some(length), false) == 0,
        crossed_in(None, true) == 0,
        relayed_to(m, a, Some(0)) is None,
        relayed_to(m, a, None) is None,
{
    let to = m.sessions[a.bytes@].established->0.peer_receiver;
    a_header_round_trips(DataHeader { receiver: to, counter }, record);
}

/// A frame for another tunnel yields nothing, and neither does one for a session that has no
/// tunnel or no leg.
pub proof fn a_foreign_relayed_frame_yields_nothing(
    m: CoreModel,
    session_id: SessionId,
    to: ReceiverIndex,
    counter: u64,
    record: Seq<u8>,
)
    requires
        record.len() >= 16,
        !m.sessions.contains_key(session_id.bytes@) || m.sessions[session_id.bytes@].established
            is None || !m.sessions[session_id.bytes@].relay
            || m.sessions[session_id.bytes@].established->0.local_receiver != to,
    ensures
        relayed_record(m, session_id, relayed_frame(to, counter, record)) is None,
{
    a_header_round_trips(DataHeader { receiver: to, counter }, record);
}

/// What is seen of a leg is told under its code. A leg is given up only where nothing took
/// over and a fresh one is to be selected, and then nothing goes through it any more; else
/// it is kept.
pub proof fn a_leg_is_kept_unless_a_fresh_one_is_needed(
    m: CoreModel,
    session_id: SessionId,
    outcome: Failover,
    code: Option<ReasonCode>,
    after: CoreModel,
    length: usize,
)
    requires
        m.named(),
        m.sessions.contains_key(session_id.bytes@),
        m.sessions[session_id.bytes@].relay,
        leg_observed(m, session_id, outcome, code, after),
    ensures
        after.sessions[session_id.bytes@].relay <==> outcome != Failover::NeedsSelection,
        after.sessions[session_id.bytes@].established == m.sessions[session_id.bytes@].established,
        outcome == Failover::NeedsSelection ==> relayed_to(after, session_id, Some(length)) is None,
        code is None ==> after.ledger == m.ledger && after.stream == m.stream,
        code is Some ==> after.ledger.len() == m.ledger.len() + 1 && (after.ledger.last() matches
            crate::instance::LedgerRecord::Diagnostic(d) && d.code == code->0),
{
}

} // verus!
