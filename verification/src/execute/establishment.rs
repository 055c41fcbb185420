//! From raced candidates to a tunnel that carries.
//!
//! A session reaches a steady state only through a handshake that completed. Where the
//! direct one does not, a relay is reached for, and never anything weaker: without a
//! tunnel a leg is carriage, and no session.

use vstd::prelude::*;

use crate::cp_binding::store::epoch_floor;
use crate::execute::carriage::RELAYED;
use crate::execute::handshake::{Attempt, Handshaken, Refusal};
use crate::instance::{effects_of, Core, CoreModel};
use crate::reason::{Component, Diagnostic, ReasonCode};
use crate::session::{Event, Guards, PathClass, SessionState};
use crate::session_table::{Applied, Established, SessionModel};
use crate::types::SessionId;

verus! {

/// What establishing a session waits for.
#[derive(Debug, Clone, Copy, PartialEq, Eq)]
pub enum CarryStage {
    /// The machine's answer to the negotiation.
    Negotiating,
    /// The end of the direct handshake.
    Handshaking,
    /// The pump of the tunnel that it produced.
    Starting,
    /// The end of reaching for a relay, after this refusal of the direct handshake.
    Relaying(Refusal),
    /// The machine's answer to the end.
    Finishing,
}

/// A session that is being established.
#[derive(Debug)]
pub struct CarryRun {
    /// Which one.
    pub session_id: SessionId,
    /// The principal that asked.
    pub actor: Option<String>,
    /// How many effects there were.
    pub effects: u32,
    /// What it waits for.
    pub stage: CarryStage,
}

/// What came back.
#[derive(Debug, Clone, Copy)]
pub enum CarryEvent {
    /// The machine answered.
    Applied(Applied),
    /// The handshake ended.
    Handshaken(Result<Handshaken, Refusal>),
    /// Starting the pump ended, however it did.
    PumpStarted,
    /// Reaching for a relay ended.
    Relayed(Result<(), Diagnostic>),
}

/// What to do next.
#[derive(Debug, Clone, Copy)]
pub enum CarryAction {
    /// Tell the session's machine.
    Apply {
        /// What.
        event: Event,
        /// The facts that its transition may depend on.
        guards: Guards,
        /// The most specific code that was observed.
        transport_code: Option<ReasonCode>,
    },
    /// Shake hands with the peer, directly.
    Handshake(Attempt),
    /// Start the pump.
    StartPump,
    /// Reach for a relay.
    OpenRelay,
    /// Nothing more: how many effects there were.
    Done(u32),
}

/// The event answers what the stage waits for.
pub open spec fn carry_fits(stage: CarryStage, event: CarryEvent) -> bool {
    match stage {
        CarryStage::Negotiating | CarryStage::Finishing => event is Applied,
        CarryStage::Handshaking => event is Handshaken,
        CarryStage::Starting => event is PumpStarted,
        CarryStage::Relaying(_) => event is Relayed,
    }
}

/// A count that stops at its bound.
pub open spec fn saturated(n: int) -> u32 {
    if n > u32::MAX {
        u32::MAX
    } else {
        n as u32
    }
}

/// The guards of another attempt.
pub open spec fn retry() -> Guards {
    Guards { retry_budget_available: true, ..Guards::none() }
}

/// The guards that a completed handshake establishes: the path was validated in both
/// directions. No path on the local network can have won, because none can be told
/// apart; and no direct path won where a relay carries.
pub open spec fn validated(class: PathClass) -> Guards {
    Guards {
        path_validated: true,
        no_l2_path_won: true,
        no_direct_path_won: class == PathClass::Relayed,
        ..Guards::none()
    }
}

/// A refusal that the tunnel engine reports.
pub open spec fn tunnel_refuses(code: ReasonCode) -> Diagnostic {
    Diagnostic::plain(code, Component::TunnelEngine)
}

fn refuse(code: ReasonCode) -> (d: Diagnostic)
    ensures
        d == tunnel_refuses(code),
{
    Diagnostic::new(code, Component::TunnelEngine)
}

/// The facts of a direct handshake. Without key material the attempt still names its
/// ends, so that it is refused for what it lacks.
pub open spec fn attempt_of(m: CoreModel, session: SessionModel) -> Attempt {
    Attempt {
        session: session.session_id,
        local_device: match session.keying {
            Some(keying) => keying.local_device,
            None => session.peer,
        },
        peer: session.peer,
        peer_endpoint: session.peer_endpoint,
        keyed: session.keying is Some,
        trust_epoch: match session.keying {
            Some(keying) => epoch_floor(m.planes, keying.twinnet@),
            None => 0,
        },
    }
}

/// The tunnel that a completed handshake produced.
pub open spec fn tunnel_of(h: Handshaken) -> Established {
    Established {
        pump: false,
        spawned: false,
        cancelled: false,
        class: PathClass::WanDirect,
        local_receiver: h.local_receiver,
        peer_receiver: h.peer_receiver,
    }
}

/// The last event is told to the machine, if there still is one.
pub open spec fn ends(
    m: CoreModel,
    run: CarryRun,
    event: Event,
    guards: Guards,
    transport_code: Option<ReasonCode>,
) -> (CarryRun, CarryAction) {
    (
        CarryRun { stage: CarryStage::Finishing, ..run },
        if m.sessions.contains_key(run.session_id.bytes@) {
            CarryAction::Apply { event, guards, transport_code }
        } else {
            CarryAction::Done(run.effects)
        },
    )
}

/// What comes once the negotiation is behind: only a session that is connecting shakes
/// hands, and only one that has a socket does so directly.
pub open spec fn connecting(m: CoreModel, run: CarryRun) -> (CarryRun, CarryAction) {
    if m.state_of(run.session_id) != Some(SessionState::Connecting) {
        (CarryRun { stage: CarryStage::Finishing, ..run }, CarryAction::Done(run.effects))
    } else {
        let session = m.sessions[run.session_id.bytes@];
        if session.sockets.len() == 0 {
            (
                CarryRun { stage: CarryStage::Relaying(Refusal::NoEndpoint), ..run },
                CarryAction::OpenRelay,
            )
        } else {
            (
                CarryRun { stage: CarryStage::Handshaking, ..run },
                CarryAction::Handshake(attempt_of(m, session)),
            )
        }
    }
}

/// How establishing begins: a session that is negotiating is told whether the inputs
/// that a handshake binds are held.
pub open spec fn carry_first(m: CoreModel, run: CarryRun) -> (CarryRun, CarryAction) {
    if m.state_of(run.session_id) == Some(SessionState::Negotiating) {
        (
            CarryRun { stage: CarryStage::Negotiating, ..run },
            CarryAction::Apply {
                event: if m.sessions[run.session_id.bytes@].keying is Some {
                    Event::NegotiationOk
                } else {
                    Event::NegotiationFail
                },
                guards: retry(),
                transport_code: None,
            },
        )
    } else {
        connecting(m, run)
    }
}

/// Neither a direct path nor a relay: both refusals are published, and the machine is
/// told the direct one's code, which is the more specific.
pub open spec fn fails(m: CoreModel, run: CarryRun, direct: Refusal, relay: Diagnostic) -> (
    CoreModel,
    CarryRun,
    CarryAction,
) {
    let told = m.diagnosed(tunnel_refuses(direct.code())).diagnosed(relay);
    let counted = CarryRun { effects: saturated(run.effects + 2), ..run };
    let (next, action) = ends(told, counted, Event::HandshakeFail, retry(), Some(direct.code()));
    (told, next, action)
}

/// The core and the run after an event, and what to do next.
pub open spec fn carry_next(m: CoreModel, run: CarryRun, event: CarryEvent) -> (
    CoreModel,
    CarryRun,
    CarryAction,
) {
    let name = run.session_id.bytes@;
    match (run.stage, event) {
        (CarryStage::Negotiating, CarryEvent::Applied(applied)) => {
            let after = m.applied(run.session_id, applied, run.actor);
            let counted = CarryRun { effects: saturated(run.effects + effects_of(applied)), ..run };
            let (next, action) = connecting(after, counted);
            (after, next, action)
        },
        (CarryStage::Handshaking, CarryEvent::Handshaken(ended)) => {
            if !m.sessions.contains_key(name) {
                (
                    m,
                    CarryRun { stage: CarryStage::Relaying(Refusal::NoKeyMaterial), ..run },
                    CarryAction::OpenRelay,
                )
            } else {
                match ended {
                    Ok(h) => (
                        m.with_session(
                            SessionModel { established: Some(tunnel_of(h)), ..m.sessions[name] },
                        ),
                        CarryRun { stage: CarryStage::Starting, ..run },
                        CarryAction::StartPump,
                    ),
                    Err(refusal) => (
                        m,
                        CarryRun { stage: CarryStage::Relaying(refusal), ..run },
                        CarryAction::OpenRelay,
                    ),
                }
            }
        },
        (CarryStage::Starting, CarryEvent::PumpStarted) => {
            let (next, action) = ends(
                m,
                run,
                Event::HandshakeOk(PathClass::WanDirect),
                validated(PathClass::WanDirect),
                None,
            );
            (m, next, action)
        },
        (CarryStage::Relaying(direct), CarryEvent::Relayed(ended)) => match ended {
            Err(relay) => fails(m, run, direct, relay),
            Ok(()) => if m.sessions.contains_key(name) && m.sessions[name].is_carrying() {
                let (next, action) = ends(
                    m,
                    run,
                    Event::HandshakeOk(PathClass::Relayed),
                    validated(PathClass::Relayed),
                    None,
                );
                (m, next, action)
            } else {
                fails(m, run, direct, tunnel_refuses(ReasonCode::CryptoHandshakeRejected))
            },
        },
        (CarryStage::Finishing, CarryEvent::Applied(applied)) => {
            let counted = saturated(run.effects + effects_of(applied));
            (
                m.applied(run.session_id, applied, run.actor),
                CarryRun { effects: counted, ..run },
                CarryAction::Done(counted),
            )
        },
        _ => (m, run, CarryAction::Done(run.effects)),
    }
}

fn end_with(
    core: &Core,
    run: CarryRun,
    event: Event,
    guards: Guards,
    transport_code: Option<ReasonCode>,
) -> (r: (CarryRun, CarryAction))
    requires
        core.wf(),
    ensures
        r == ends(core@, run, event, guards, transport_code),
{
    let effects: u32 = run.effects;
    let known = core.sessions.contains(run.session_id);
    let next = CarryRun { stage: CarryStage::Finishing, ..run };
    if known {
        (next, CarryAction::Apply { event, guards, transport_code })
    } else {
        (next, CarryAction::Done(effects))
    }
}

/// Shakes hands directly, where the session is connecting and has a socket.
fn direct(core: &Core, run: CarryRun) -> (r: (CarryRun, CarryAction))
    requires
        core.wf(),
    ensures
        r == connecting(core@, run),
{
    let effects: u32 = run.effects;
    match core.sessions.get(run.session_id) {
        Some(entry) => {
            if entry.machine.state != SessionState::Connecting {
                return (
                    CarryRun { stage: CarryStage::Finishing, ..run },
                    CarryAction::Done(effects),
                );
            }
            if entry.sockets.len() == 0 {
                return (
                    CarryRun { stage: CarryStage::Relaying(Refusal::NoEndpoint), ..run },
                    CarryAction::OpenRelay,
                );
            }
            let attempt = match &entry.keying {
                Some(keying) => Attempt {
                    session: entry.session_id,
                    local_device: keying.local_device,
                    peer: entry.peer,
                    peer_endpoint: entry.peer_endpoint,
                    keyed: true,
                    trust_epoch: core.data_plane_view().trust_epoch(&keying.twinnet),
                },
                None => Attempt {
                    session: entry.session_id,
                    local_device: entry.peer,
                    peer: entry.peer,
                    peer_endpoint: entry.peer_endpoint,
                    keyed: false,
                    trust_epoch: 0,
                },
            };
            (
                CarryRun { stage: CarryStage::Handshaking, ..run },
                CarryAction::Handshake(attempt),
            )
        },
        None => (
            CarryRun { stage: CarryStage::Finishing, ..run },
            CarryAction::Done(effects),
        ),
    }
}

/// Begins to establish a session.
pub fn carry(core: &Core, session_id: SessionId, actor: Option<String>) -> (r: (
    CarryRun,
    CarryAction,
))
    requires
        core.wf(),
    ensures
        r == carry_first(
            core@,
            (CarryRun { session_id, actor, effects: 0, stage: CarryStage::Finishing }),
        ),
{
    let run = CarryRun { session_id, actor, effects: 0, stage: CarryStage::Finishing };
    match core.sessions.get(session_id) {
        Some(entry) => {
            if entry.machine.state == SessionState::Negotiating {
                let event = if entry.keying.is_some() {
                    Event::NegotiationOk
                } else {
                    Event::NegotiationFail
                };
                let guards = Guards { retry_budget_available: true, ..Guards::default() };
                return (
                    CarryRun { stage: CarryStage::Negotiating, ..run },
                    CarryAction::Apply { event, guards, transport_code: None },
                );
            }
        },
        None => {},
    }
    direct(core, run)
}

/// Tells the machine that a handshake completed on a path of this class.
fn reached(core: &Core, run: CarryRun, class: PathClass) -> (r: (CarryRun, CarryAction))
    requires
        core.wf(),
    ensures
        r == ends(core@, run, Event::HandshakeOk(class), validated(class), None),
{
    let guards = Guards {
        path_validated: true,
        no_l2_path_won: true,
        no_direct_path_won: class == PathClass::Relayed,
        ..Guards::default()
    };
    end_with(core, run, Event::HandshakeOk(class), guards, None)
}

/// Publishes both refusals and tells the machine the direct one's code.
fn failed(core: &mut Core, run: CarryRun, direct: Refusal, relay: Diagnostic) -> (r: (
    CarryRun,
    CarryAction,
))
    requires
        old(core).wf(),
        old(core)@.room(2),
    ensures
        final(core).wf(),
        (final(core)@, r.0, r.1) == fails(old(core)@, run, direct, relay),
{
    let code = direct.reason_code();
    core.publish_diagnostic(refuse(code));
    core.publish_diagnostic(relay);
    let counted = CarryRun { effects: run.effects.saturating_add(2), ..run };
    let guards = Guards { retry_budget_available: true, ..Guards::default() };
    end_with(core, counted, Event::HandshakeFail, guards, Some(code))
}

/// Takes what came back, and says what to do next.
pub fn carry_step(core: &mut Core, run: CarryRun, event: CarryEvent) -> (r: (CarryRun, CarryAction))
    requires
        old(core).wf(),
        old(core)@.room(2),
        carry_fits(run.stage, event),
    ensures
        final(core).wf(),
        (final(core)@, r.0, r.1) == carry_next(old(core)@, run, event),
{
    let session_id = run.session_id;
    match (run.stage, event) {
        (CarryStage::Negotiating, CarryEvent::Applied(applied)) => {
            let n: u32 = core.apply(session_id, applied, run.actor.clone());
            let counted = CarryRun { effects: run.effects.saturating_add(n), ..run };
            direct(core, counted)
        },
        (CarryStage::Handshaking, CarryEvent::Handshaken(ended)) => {
            match core.sessions.take(session_id) {
                None => {
                    assert(core@.sessions =~= old(core)@.sessions);
                    (
                        CarryRun { stage: CarryStage::Relaying(Refusal::NoKeyMaterial), ..run },
                        CarryAction::OpenRelay,
                    )
                },
                Some(entry) => {
                    let mut entry = entry;
                    match ended {
                        Ok(h) => {
                            entry.established = Some(
                                Established {
                                    pump: false,
                                    spawned: false,
                                    cancelled: false,
                                    class: PathClass::WanDirect,
                                    local_receiver: h.local_receiver,
                                    peer_receiver: h.peer_receiver,
                                },
                            );
                            core.sessions.put(entry);
                            assert(core@ =~= carry_next(old(core)@, run, event).0);
                            (
                                CarryRun { stage: CarryStage::Starting, ..run },
                                CarryAction::StartPump,
                            )
                        },
                        Err(refusal) => {
                            core.sessions.put(entry);
                            assert(core@ =~= old(core)@);
                            (
                                CarryRun { stage: CarryStage::Relaying(refusal), ..run },
                                CarryAction::OpenRelay,
                            )
                        },
                    }
                },
            }
        },
        (CarryStage::Starting, CarryEvent::PumpStarted) => reached(
            core,
            run,
            PathClass::WanDirect,
        ),
        (CarryStage::Relaying(direct), CarryEvent::Relayed(ended)) => match ended {
            Err(relay) => failed(core, run, direct, relay),
            Ok(()) => {
                let carrying = match core.sessions.get(session_id) {
                    Some(entry) => entry.is_carrying(),
                    None => false,
                };
                if carrying {
                    reached(core, run, RELAYED)
                } else {
                    failed(core, run, direct, refuse(ReasonCode::CryptoHandshakeRejected))
                }
            },
        },
        (CarryStage::Finishing, CarryEvent::Applied(applied)) => {
            let n: u32 = core.apply(session_id, applied, run.actor.clone());
            let effects: u32 = run.effects.saturating_add(n);
            (CarryRun { effects, ..run }, CarryAction::Done(effects))
        },
        _ => {
            let effects: u32 = run.effects;
            (run, CarryAction::Done(effects))
        },
    }
}

/// A machine is told of a completed handshake only right after one completed, or where
/// a relay was reached for a session whose tunnel an earlier one produced. It is the
/// only thing that says a path was validated, and no class that cannot be told apart
/// is ever claimed.
pub proof fn a_steady_state_needs_a_handshake(m: CoreModel, run: CarryRun, event: CarryEvent)
    requires
        carry_fits(run.stage, event),
    ensures
        carry_next(m, run, event).2 matches CarryAction::Apply {
            event: Event::HandshakeOk(class),
            guards,
            ..
        } ==> {
            &&& run.stage is Starting || m.sessions[run.session_id.bytes@].is_carrying()
            &&& guards == validated(class)
            &&& class != PathClass::LocalDirect
        },
        carry_next(m, run, event).2 matches CarryAction::Apply { event: told, guards, .. }
            ==> guards.path_validated == (told is HandshakeOk),
        carry_next(m, run, event).1.stage is Starting ==> event matches CarryEvent::Handshaken(
            Ok(_),
        ),
{
}

/// A tunnel comes to a session only from a handshake that completed.
pub proof fn a_tunnel_needs_a_handshake(
    m: CoreModel,
    run: CarryRun,
    event: CarryEvent,
    name: Seq<u8>,
)
    requires
        carry_fits(run.stage, event),
        m.named(),
        m.sessions.contains_key(name),
    ensures
        carry_next(m, run, event).0.sessions.contains_key(name),
        carry_next(m, run, event).0.sessions[name].established != m.sessions[name].established
            ==> event matches CarryEvent::Handshaken(Ok(_)),
{
}

/// The core and the run after a run of events, and what to do next.
pub open spec fn carried_through(m: CoreModel, run: CarryRun, events: Seq<CarryEvent>) -> (
    CoreModel,
    CarryRun,
    CarryAction,
)
    decreases events.len(),
{
    if events.len() == 0 {
        let (next, action) = carry_first(m, run);
        (m, next, action)
    } else {
        let (before, pending, _) = carried_through(m, run, events.drop_last());
        carry_next(before, pending, events.last())
    }
}

/// Some handshake completed among these events.
pub open spec fn some_handshake(events: Seq<CarryEvent>) -> bool {
    exists|k: int|
        0 <= k < events.len() && (#[trigger] events[k] matches CarryEvent::Handshaken(Ok(_)))
}

/// Over any run of events, a session that no tunnel carried when it began is told of a
/// completed handshake only if one completed during the run; and only then does it come
/// to carry one.
pub proof fn no_handshake_no_steady_state(m: CoreModel, run: CarryRun, events: Seq<CarryEvent>)
    requires
        m.named(),
        m.sessions.contains_key(run.session_id.bytes@),
        !m.sessions[run.session_id.bytes@].is_carrying(),
        !some_handshake(events),
    ensures
        ({
            let (after, next, action) = carried_through(m, run, events);
            &&& after.named()
            &&& next.session_id == run.session_id
            &&& !(next.stage is Starting)
            &&& after.sessions.contains_key(run.session_id.bytes@)
            &&& !after.sessions[run.session_id.bytes@].is_carrying()
            &&& !(action matches CarryAction::Apply { event: Event::HandshakeOk(_), .. })
        }),
    decreases events.len(),
{
    if events.len() > 0 {
        let fewer = events.drop_last();
        assert(!some_handshake(fewer)) by {
            if some_handshake(fewer) {
                let k = choose|k: int|
                    0 <= k < fewer.len() && (#[trigger] fewer[k] matches CarryEvent::Handshaken(
                        Ok(_),
                    ));
                assert(events[k] matches CarryEvent::Handshaken(Ok(_)));
            }
        }
        no_handshake_no_steady_state(m, run, fewer);
        let last = events[events.len() - 1];
        assert(!(last matches CarryEvent::Handshaken(Ok(_))));
    }
}

/// Key material outlives every attempt: a failed one does not forget it.
pub proof fn key_material_is_kept(m: CoreModel, run: CarryRun, event: CarryEvent, name: Seq<u8>)
    requires
        carry_fits(run.stage, event),
        m.named(),
        m.sessions.contains_key(name),
    ensures
        carry_next(m, run, event).0.sessions.contains_key(name),
        carry_next(m, run, event).0.sessions[name].keying == m.sessions[name].keying,
{
}

/// An attempt that neither a direct path nor a relay carried is told as a failure
/// under the direct refusal's code, and both refusals were published.
pub proof fn a_failure_names_both_refusals(
    m: CoreModel,
    run: CarryRun,
    direct: Refusal,
    relay: Diagnostic,
)
    requires
        run.stage == CarryStage::Relaying(direct),
        m.sessions.contains_key(run.session_id.bytes@),
    ensures
        carry_next(m, run, CarryEvent::Relayed(Err(relay))).2 == (CarryAction::Apply {
            event: Event::HandshakeFail,
            guards: retry(),
            transport_code: Some(direct.code()),
        }),
        carry_next(m, run, CarryEvent::Relayed(Err(relay))).0 == m.diagnosed(
            tunnel_refuses(direct.code()),
        ).diagnosed(relay),
{
}

} // verus!
