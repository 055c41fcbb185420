//! Establishing a session: the handshake with the peer, the relay behind it, and what the
//! session's machine is told.

use vstd::prelude::*;

use crate::datapath::frame::ReceiverIndex;
use crate::execute::establishment::{carry_first, carry_next, CarryAction, CarryEvent, CarryRun,
    CarryStage};
use crate::execute::handshake::{a_response_round_trips, an_initiation_round_trips, drives, starts,
    two_ends_take_two_roles, yields, Attempt, Drive, DriveAction, DriveEvent, Handshaken,
    ReceiveEnd, Refusal, Role, Stage};
use crate::instance::{CoreModel, LedgerRecord};
use crate::octets::before;
use crate::reason::{Diagnostic, ReasonCode};
use crate::session::{Event, Guards, PathClass, SessionState};
use crate::session_table::{Applied, Keying};
use crate::types::{DeviceId, Endpoint, SessionId};

verus! {

/// The attempt is with this peer, of this session, by this device and at this endpoint.
pub open spec fn is_with(
    attempt: Attempt,
    session_id: SessionId,
    keying: Keying,
    peer: DeviceId,
    endpoint: Endpoint,
) -> bool {
    &&& attempt.session == session_id
    &&& attempt.local_device == keying.local_device
    &&& attempt.peer == peer
    &&& attempt.peer_endpoint == Some(endpoint)
    &&& attempt.keyed
}

/// A session that is connecting, has a socket and key material and was told where its peer
/// is begins a handshake with that peer, at the endpoint that was told last, and under the
/// trust epoch of the network its key material is of: both where establishing begins there
/// and where the machine's answer to the negotiation brings it there. The attempt that is
/// handed out is one that begins: it is driven at that endpoint.
pub proof fn a_handshake_goes_to_the_endpoint_that_was_told(
    m: CoreModel,
    session_id: SessionId,
    named: DeviceId,
    endpoint: Endpoint,
    keying: Keying,
    run: CarryRun,
    applied: Applied,
    began: Result<(Drive, DriveAction), Refusal>,
    later: Result<(Drive, DriveAction), Refusal>,
)
    requires
        m.named(),
        m.sessions.contains_key(session_id.bytes@),
        m.sessions[session_id.bytes@].session_id == session_id,
        m.sessions[session_id.bytes@].sockets.len() > 0,
        m.sessions[session_id.bytes@].keying == Some(keying),
        run.session_id == session_id,
        applied.report.state == SessionState::Connecting,
    ensures
        ({
            let peer = m.sessions[session_id.bytes@].peer;
            let known = m.endpoint_set(session_id, named, endpoint);
            let epoch = if m.planes.trust_epoch.contains_key(keying.twinnet@) {
                m.planes.trust_epoch[keying.twinnet@]
            } else {
                0
            };
            &&& m.sessions[session_id.bytes@].machine.state == SessionState::Connecting ==> {
                &&& carry_first(known, run).1 matches CarryAction::Handshake(attempt)
                &&& is_with(attempt, session_id, keying, peer, endpoint)
                &&& attempt.trust_epoch == epoch
                &&& starts(attempt, began) ==> (began matches Ok((d, _)) && d.endpoint == endpoint
                    && d.attempt == attempt)
            }
            &&& run.stage == CarryStage::Negotiating ==> {
                &&& carry_next(known, run, CarryEvent::Applied(applied)).2 matches
                    CarryAction::Handshake(attempt)
                &&& is_with(attempt, session_id, keying, peer, endpoint)
                &&& attempt.trust_epoch == epoch
                &&& starts(attempt, later) ==> (later matches Ok((d, _)) && d.endpoint == endpoint
                    && d.attempt == attempt)
            }
        }),
{
}

/// What was told of where a peer is, and its key material, stay what they are until they are
/// told anew: no step of establishing changes either, of any session.
pub proof fn what_was_told_of_a_peer_is_kept(
    m: CoreModel,
    run: CarryRun,
    event: CarryEvent,
    name: Seq<u8>,
    other: SessionId,
    peer: DeviceId,
    keying: Keying,
)
    requires
        m.named(),
        m.sessions.contains_key(name),
    ensures
        ({
            let after = carry_next(m, run, event).0.sessions;
            &&& after.contains_key(name)
            &&& after[name].peer_endpoint == m.sessions[name].peer_endpoint
            &&& after[name].keying == m.sessions[name].keying
            &&& after[name].peer == m.sessions[name].peer
            &&& after[name].sockets == m.sessions[name].sockets
        }),
        m.key_installed(other, peer, keying).sessions[name].peer_endpoint
            == m.sessions[name].peer_endpoint,
        m.relay_granted(other, peer).sessions[name].peer_endpoint == m.sessions[name].peer_endpoint,
{
}

/// What is installed for a peer is there afterwards, of the session that it was installed
/// for, which is made where there is none and else keeps all the rest; and no other session
/// is touched.
pub proof fn what_is_installed_is_there(
    m: CoreModel,
    id: SessionId,
    peer: DeviceId,
    endpoint: Endpoint,
    keying: Keying,
    other: Seq<u8>,
)
    requires
        m.named(),
        other != id.bytes@,
    ensures
        ({
            let name = id.bytes@;
            let was = m.sessions[name];
            let told = m.endpoint_set(id, peer, endpoint).sessions;
            let keyed = m.key_installed(id, peer, keying).sessions;
            let granted = m.relay_granted(id, peer).sessions;
            &&& told.contains_key(name) && told[name].peer_endpoint == Some(endpoint)
            &&& keyed.contains_key(name) && keyed[name].keying == Some(keying)
            &&& granted.contains_key(name) && granted[name].relay_access
            &&& m.sessions.contains_key(name) ==> {
                &&& told[name].keying == was.keying && told[name].machine == was.machine
                    && told[name].established == was.established && told[name].peer == was.peer
                    && told[name].relay_access == was.relay_access
                &&& keyed[name].machine == was.machine && keyed[name].established
                    == was.established && keyed[name].peer == was.peer
                &&& granted[name].keying == was.keying && granted[name].machine == was.machine
                    && granted[name].established == was.established
            }
            &&& !m.sessions.contains_key(name) ==> {
                &&& told[name].peer == peer && keyed[name].peer == peer && granted[name].peer == peer
                &&& told[name].machine.state == SessionState::Disconnected
                &&& told[name].established is None && keyed[name].established is None
                &&& told[name].keying is None && !told[name].relay_access
            }
            &&& told.contains_key(other) == m.sessions.contains_key(other)
            &&& keyed.contains_key(other) == m.sessions.contains_key(other)
            &&& granted.contains_key(other) == m.sessions.contains_key(other)
            &&& m.sessions.contains_key(other) ==> told[other] == m.sessions[other] && keyed[other]
                == m.sessions[other] && granted[other] == m.sessions[other]
        }),
{
}

/// A session that is negotiating is told that the negotiation succeeded exactly where it
/// holds key material, with another attempt allowed and nothing claimed of a path.
pub proof fn a_negotiation_succeeds_with_key_material(m: CoreModel, run: CarryRun)
    requires
        m.sessions.contains_key(run.session_id.bytes@),
        m.sessions[run.session_id.bytes@].machine.state == SessionState::Negotiating,
    ensures
        carry_first(m, run).1 matches CarryAction::Apply { event, guards, transport_code } && (event
            == Event::NegotiationOk || event == Event::NegotiationFail) && (event
            == Event::NegotiationOk <==> m.sessions[run.session_id.bytes@].keying is Some)
            && guards.retry_budget_available && !guards.path_validated && transport_code is None,
        carry_first(m, run).0.stage == CarryStage::Negotiating,
        carry_first(m, run).0.session_id == run.session_id,
{
}

/// Only a session that is connecting shakes hands: at any other state, and where the session
/// is not known, nothing is done.
pub proof fn only_a_connecting_session_shakes_hands(m: CoreModel, run: CarryRun)
    requires
        !m.sessions.contains_key(run.session_id.bytes@) || (
        m.sessions[run.session_id.bytes@].machine.state != SessionState::Connecting
            && m.sessions[run.session_id.bytes@].machine.state != SessionState::Negotiating),
    ensures
        carry_first(m, run).1 == CarryAction::Done(run.effects),
{
}

/// A handshake that completes establishes the session: its tunnel has the indices that both
/// ends agreed on, its pump is started, its machine is told of a handshake on a direct path
/// that was validated in both directions, and the whole counts as many effects as there
/// were transitions.
pub proof fn a_completed_handshake_establishes_the_session(
    m: CoreModel,
    run: CarryRun,
    h: Handshaken,
    applied: Applied,
)
    requires
        m.named(),
        m.sessions.contains_key(run.session_id.bytes@),
        run.stage == CarryStage::Handshaking,
        run.effects < u32::MAX,
    ensures
        ({
            let name = run.session_id.bytes@;
            let (m1, r1, a1) = carry_next(m, run, CarryEvent::Handshaken(Ok(h)));
            let (m2, r2, a2) = carry_next(m1, r1, CarryEvent::PumpStarted);
            let (m3, r3, a3) = carry_next(m2, r2, CarryEvent::Applied(applied));
            &&& a1 == CarryAction::StartPump
            &&& m1.sessions[name].established matches Some(e) && e.local_receiver
                == h.local_receiver && e.peer_receiver == h.peer_receiver && e.class
                == PathClass::WanDirect && !e.pump && !e.cancelled && !e.spawned
            &&& m1.sessions[name].machine == m.sessions[name].machine
            &&& a2 matches CarryAction::Apply { event, guards, transport_code } && event
                == Event::HandshakeOk(PathClass::WanDirect) && guards.path_validated
                && guards.no_l2_path_won && !guards.no_direct_path_won && transport_code is None
            &&& m2 == m1
            &&& m3.sessions[name].machine == applied.report
            &&& m3.sessions[name].established == m1.sessions[name].established
            &&& a3 == CarryAction::Done(
                (run.effects + (if applied.record is Some {
                    1int
                } else {
                    0
                })) as u32,
            )
            &&& r1.session_id == run.session_id && r2.session_id == run.session_id
        }),
{
}

/// Whatever refuses the direct handshake, and where there is no socket to shake hands on, a
/// relay is reached for, and nothing of the session changes on the way.
pub proof fn every_refused_handshake_reaches_for_a_relay(
    m: CoreModel,
    run: CarryRun,
    refusal: Refusal,
)
    requires
        m.sessions.contains_key(run.session_id.bytes@),
    ensures
        run.stage == CarryStage::Handshaking ==> {
            let (after, next, action) = carry_next(m, run, CarryEvent::Handshaken(Err(refusal)));
            &&& after == m
            &&& action == CarryAction::OpenRelay
            &&& next.stage == CarryStage::Relaying(refusal)
            &&& next.effects == run.effects
            &&& next.session_id == run.session_id
        },
        m.sessions[run.session_id.bytes@].machine.state == SessionState::Connecting
            && m.sessions[run.session_id.bytes@].sockets.len() == 0 ==> carry_first(m, run).1
            == CarryAction::OpenRelay && carry_first(m, run).0.stage == CarryStage::Relaying(
            Refusal::NoEndpoint,
        ),
{
}

/// A relay that was reached carries a session that has a tunnel: its machine is told of a
/// handshake on a relayed path, and that no direct path won. Without a tunnel a leg is no
/// session: that is a failure, told under the code of what refused the direct handshake.
pub proof fn a_reached_relay_carries_a_tunnel(m: CoreModel, run: CarryRun, direct: Refusal)
    requires
        m.sessions.contains_key(run.session_id.bytes@),
        run.stage == CarryStage::Relaying(direct),
    ensures
        ({
            let (after, next, action) = carry_next(m, run, CarryEvent::Relayed(Ok(())));
            let carried = m.sessions[run.session_id.bytes@].established is Some;
            &&& next.stage == CarryStage::Finishing
            &&& carried ==> after == m && (action matches CarryAction::Apply {
                event,
                guards,
                transport_code,
            } && event == Event::HandshakeOk(PathClass::Relayed) && guards.path_validated
                && guards.no_l2_path_won && guards.no_direct_path_won && transport_code is None)
            &&& !carried ==> {
                &&& action matches CarryAction::Apply { event, guards, transport_code } && event
                    == Event::HandshakeFail && guards.retry_budget_available
                    && !guards.path_validated && transport_code == Some(direct.code())
                &&& after.sessions == m.sessions
                &&& tells_both(m, after, direct.code(), ReasonCode::CryptoHandshakeRejected)
            }
        }),
{
}

/// Two diagnostics were put down, the one after the other.
pub open spec fn tells_both(
    m: CoreModel,
    after: CoreModel,
    first: ReasonCode,
    second: ReasonCode,
) -> bool {
    let n = m.ledger.len() as int;
    &&& after.ledger.len() == n + 2
    &&& after.ledger[n] matches LedgerRecord::Diagnostic(d) && d.code == first
    &&& after.ledger[n + 1] matches LedgerRecord::Diagnostic(d) && d.code == second
}

/// Where neither a direct path nor a relay carries, both refusals are put down in that
/// order, and the machine is told that the handshake failed, under the code of the direct
/// one; and each refusal of a handshake has a code of its own.
pub proof fn a_session_that_nothing_carries_fails_by_name(
    m: CoreModel,
    run: CarryRun,
    direct: Refusal,
    relay: Diagnostic,
)
    requires
        m.sessions.contains_key(run.session_id.bytes@),
        run.stage == CarryStage::Relaying(direct),
    ensures
        ({
            let (after, next, action) = carry_next(m, run, CarryEvent::Relayed(Err(relay)));
            &&& action matches CarryAction::Apply { event, guards, transport_code } && event
                == Event::HandshakeFail && guards.retry_budget_available && !guards.path_validated
                && transport_code == Some(direct.code())
            &&& after.sessions == m.sessions
            &&& tells_both(m, after, direct.code(), relay.code)
            &&& run.effects < u32::MAX - 2 ==> next.effects == run.effects + 2
        }),
        direct.code() == (match direct {
            Refusal::NoKeyMaterial => ReasonCode::AuthKeyUnavailable,
            Refusal::NoEndpoint => ReasonCode::NetNoUsableCandidates,
            Refusal::Rejected => ReasonCode::CryptoHandshakeRejected,
            Refusal::NoResponse => ReasonCode::CryptoNoResponse,
            Refusal::Malformed => ReasonCode::ProtoMalformedMessage,
            Refusal::Platform(error) => error.code,
        }),
{
}

/// The one end of a handshake, step by step, as long as nothing refuses.
pub struct Initiating {
    /// After the keys were bound.
    pub bound: (Drive, DriveAction),
    /// After its index was drawn.
    pub drawn: (Drive, DriveAction),
    /// After the first message was written.
    pub written: (Drive, DriveAction),
    /// After it was sent.
    pub sent: (Drive, DriveAction),
    /// After the response was received.
    pub received: (Drive, DriveAction),
    /// After it was read.
    pub read: (Drive, DriveAction),
    /// After the tunnel was confirmed.
    pub confirmed: (Drive, DriveAction),
}

/// The other end.
pub struct Responding {
    /// After the keys were bound.
    pub bound: (Drive, DriveAction),
    /// After its index was drawn.
    pub drawn: (Drive, DriveAction),
    /// After the first message was received.
    pub received: (Drive, DriveAction),
    /// After it was read and answered.
    pub answered: (Drive, DriveAction),
    /// After the answer was sent.
    pub sent: (Drive, DriveAction),
    /// After the tunnel was confirmed.
    pub confirmed: (Drive, DriveAction),
}

/// A handshake that nothing refuses completes at both ends, and they agree: the device that
/// sorts lower speaks first and the other answers, each to the endpoint that it was given;
/// each message arrives as it was written; each end's tunnel has the session's name and the
/// trust epoch of its attempt; and the index that the one expects is the one that the other
/// stamps.
pub proof fn both_ends_complete_and_agree(
    a: Drive,
    b: Drive,
    i: Initiating,
    r: Responding,
    drawn_a: [u8; 4],
    drawn_b: [u8; 4],
    first: Vec<u8>,
    second: Vec<u8>,
    to_b: ReceiveEnd,
    to_a: ReceiveEnd,
)
    requires
        a.stage == Stage::Binding,
        b.stage == Stage::Binding,
        a.attempt.local_device == b.attempt.peer,
        a.attempt.peer == b.attempt.local_device,
        before(a.attempt.local_device.bytes@, a.attempt.peer.bytes@),
        first@.len() > 0,
        second@.len() > 0,
        drives(a, DriveEvent::Bound(true), i.bound),
        drives(i.bound.0, DriveEvent::Drawn(Some(drawn_a)), i.drawn),
        drives(i.drawn.0, DriveEvent::Written(Some(first)), i.written),
        drives(i.written.0, DriveEvent::Sent(Ok(())), i.sent),
        drives(b, DriveEvent::Bound(true), r.bound),
        drives(r.bound.0, DriveEvent::Drawn(Some(drawn_b)), r.drawn),
        i.written.1 matches DriveAction::Send { datagram, .. } ==> yields(to_b) == Ok::<
            Seq<u8>,
            Refusal,
        >(datagram@),
        drives(r.drawn.0, DriveEvent::Received(to_b), r.received),
        drives(r.received.0, DriveEvent::Written(Some(second)), r.answered),
        drives(r.answered.0, DriveEvent::Sent(Ok(())), r.sent),
        drives(r.sent.0, DriveEvent::Confirmed(true), r.confirmed),
        r.answered.1 matches DriveAction::Send { datagram, .. } ==> yields(to_a) == Ok::<
            Seq<u8>,
            Refusal,
        >(datagram@),
        drives(i.sent.0, DriveEvent::Received(to_a), i.received),
        drives(i.received.0, DriveEvent::ResponseRead(true), i.read),
        drives(i.read.0, DriveEvent::Confirmed(true), i.confirmed),
    ensures
        i.bound.1 == DriveAction::Draw,
        r.bound.1 == DriveAction::Draw,
        i.drawn.1 == DriveAction::WriteInitiation,
        r.drawn.1 == DriveAction::Receive,
        i.written.1 matches DriveAction::Send { to, .. } && to == a.endpoint,
        i.sent.1 == DriveAction::Receive,
        r.received.1 matches DriveAction::Answer { body } && body@ == first@,
        r.answered.1 matches DriveAction::Send { to, .. } && to == b.endpoint,
        r.sent.1 == (DriveAction::Confirm {
            tunnel_id: b.attempt.session.bytes,
            endpoint: b.endpoint,
            trust_epoch: b.attempt.trust_epoch,
        }),
        i.received.1 matches DriveAction::ReadResponse { body } && body@ == second@,
        i.read.1 == (DriveAction::Confirm {
            tunnel_id: a.attempt.session.bytes,
            endpoint: a.endpoint,
            trust_epoch: a.attempt.trust_epoch,
        }),
        i.confirmed.1 matches DriveAction::Done(Ok(ha)) && (r.confirmed.1 matches
            DriveAction::Done(Ok(hb)) && ha.local_receiver == hb.peer_receiver
            && ha.peer_receiver == hb.local_receiver && ha.local_receiver == ReceiverIndex(
            crate::octets::le32_value(drawn_a@),
        ) && hb.local_receiver == ReceiverIndex(crate::octets::le32_value(drawn_b@))),
{
    if a.attempt.local_device == a.attempt.peer {
        crate::octets::before_irreflexive(a.attempt.peer.bytes@);
    }
    two_ends_take_two_roles(a.attempt.local_device, a.attempt.peer);
    let ia = ReceiverIndex(crate::octets::le32_value(drawn_a@));
    let ib = ReceiverIndex(crate::octets::le32_value(drawn_b@));
    an_initiation_round_trips(ia, first@);
    a_response_round_trips(ib, ia, second@);
}

/// An attempt begins exactly where there is key material and an endpoint, and is refused for
/// what it lacks, the key material first; what begins binds the two devices in the same
/// order at both ends, under the trust epoch of the attempt.
pub proof fn an_attempt_begins_with_a_key_and_an_endpoint(
    attempt: Attempt,
    r: Result<(Drive, DriveAction), Refusal>,
)
    requires
        starts(attempt, r),
    ensures
        r is Ok <==> attempt.keyed && attempt.peer_endpoint is Some,
        !attempt.keyed ==> r == Err::<(Drive, DriveAction), Refusal>(Refusal::NoKeyMaterial),
        attempt.keyed && attempt.peer_endpoint is None ==> r == Err::<
            (Drive, DriveAction),
            Refusal,
        >(Refusal::NoEndpoint),
        r matches Ok((d, action)) ==> d.stage == Stage::Binding && Some(d.endpoint)
            == attempt.peer_endpoint && (action matches DriveAction::Bind {
            role,
            initiator,
            responder,
            trust_epoch,
        } && trust_epoch == attempt.trust_epoch && (before(
            attempt.local_device.bytes@,
            attempt.peer.bytes@,
        ) ==> role == Role::Initiator && initiator == attempt.local_device && responder
            == attempt.peer) && (!before(attempt.local_device.bytes@, attempt.peer.bytes@) ==> role
            == Role::Responder && initiator == attempt.peer && responder
            == attempt.local_device)),
{
}

/// Whatever refuses a handshake on the way ends it, under its own name: what the keys or the
/// peer's message refuse is rejected, without saying which; no answer in time, a datagram
/// that is none, and what the platform gives are told as that.
pub proof fn what_refuses_a_handshake_ends_it(d: Drive, event: DriveEvent, r: (Drive, DriveAction))
    requires
        crate::execute::handshake::drive_fits(d.stage, event),
        drives(d, event, r),
    ensures
        event == DriveEvent::Bound(false) || event == DriveEvent::ResponseRead(false) || event
            == DriveEvent::Confirmed(false) || event is Drawn && event->Drawn_0 is None || event
            is Written && event->Written_0 is None ==> r.1 == DriveAction::Done(
            Err(Refusal::Rejected),
        ),
        event matches DriveEvent::Sent(Err(error)) ==> r.1 == DriveAction::Done(
            Err(Refusal::Platform(error)),
        ),
        event == DriveEvent::Received(ReceiveEnd::Expired) ==> r.1 == DriveAction::Done(
            Err(Refusal::NoResponse),
        ),
        event matches DriveEvent::Received(ReceiveEnd::Failed(error)) ==> r.1 == DriveAction::Done(
            Err(Refusal::Platform(error)),
        ),
        event matches DriveEvent::Received(ReceiveEnd::Datagram { truncated: true, .. }) ==> r.1
            == DriveAction::Done(Err(Refusal::Malformed)),
        r.1 matches DriveAction::Done(Ok(h)) ==> d.stage == Stage::Confirming && event
            == DriveEvent::Confirmed(true) && h.local_receiver == d.local_receiver
            && h.peer_receiver == d.peer_receiver,
        r.1 matches DriveAction::Send { to, .. } ==> to == d.endpoint,
{
}

} // verus!
