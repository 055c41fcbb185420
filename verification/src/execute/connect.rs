//! Connecting to a peer: gather, read the trust facts, race, shake hands, and leave a
//! record.
//!
//! Connecting twice reaches the same session, and the second request redoes nothing
//! that the first one did.

use vstd::prelude::*;

use crate::establish::{admission, admit_round, rows_of, Admission, Round};
use crate::events::SessionEvent;
use crate::execute::establishment::saturated;
use crate::instance::{effects_of, refused_with, Core, CoreModel};
use crate::journal::{hex_text, session_octets};
use crate::planes::WriteModel;
use crate::reason::{Component, Diagnostic, ReasonCode};
use crate::session::{DurableSession, Event, Guards};
use crate::session_table::{Applied, SessionEntry, SessionModel};
use crate::types::{DeviceId, SessionId};

verus! {

/// What connecting waits for.
#[derive(Debug, Clone, Copy, PartialEq, Eq, Structural)]
pub enum ConnectStage {
    /// A gathering round.
    Gathering,
    /// Whether this device holds an identity.
    Identifying,
    /// The machine's answer to the request.
    Requesting,
    /// The time, at which what was gathered is admitted.
    Admitting,
    /// The start of the race.
    Racing,
    /// The machine's answer to what was gathered.
    Settling,
    /// The probes that are due.
    Probing,
    /// The end of establishing.
    Carrying,
}

/// A connect under way.
#[derive(Debug)]
pub struct ConnectRun {
    /// Which session.
    pub session_id: SessionId,
    /// Its peer.
    pub peer: DeviceId,
    /// The principal that asked.
    pub actor: Option<String>,
    /// How many effects there were.
    pub effects: u32,
    /// Whether there is a candidate.
    pub usable_candidate: bool,
    /// Whether neither family produced one.
    pub no_candidate_either_family: bool,
    /// What was gathered, until it is recorded.
    pub round: Option<Round>,
    /// What it waits for.
    pub stage: ConnectStage,
}

/// What came back.
#[derive(Debug)]
pub enum ConnectEvent {
    /// A round was gathered.
    Gathered(Round),
    /// Whether this device holds an identity.
    Identity(bool),
    /// The machine answered.
    Applied(Applied),
    /// The time, in microseconds.
    Now(u64),
    /// The race was scheduled.
    Raced,
    /// How many probes were sent.
    Probed(u32),
    /// Establishing ended: how many effects it had.
    Carried(u32),
}

/// What to do next.
#[derive(Debug)]
pub enum ConnectAction {
    /// Gather.
    Gather,
    /// Ask whether this device holds an identity.
    Identify,
    /// Tell the session's machine.
    Apply {
        /// What.
        event: Event,
        /// The facts that its transition may depend on.
        guards: Guards,
    },
    /// Read the time.
    ReadClock,
    /// Stamp the first direct probe and schedule the race.
    Race(Admission),
    /// Send the probes that are due.
    Probe,
    /// Establish the session.
    Carry,
    /// Nothing more: how many effects there were, or why it is refused.
    Done(Result<u32, Diagnostic>),
}

/// The event answers what the stage waits for. A count of probes leaves room for the
/// effects that came before.
pub open spec fn connect_fits(run: ConnectRun, event: ConnectEvent) -> bool {
    match run.stage {
        ConnectStage::Gathering => event is Gathered,
        ConnectStage::Identifying => event is Identity,
        ConnectStage::Requesting | ConnectStage::Settling => event is Applied,
        ConnectStage::Admitting => event is Now,
        ConnectStage::Racing => event is Raced,
        ConnectStage::Probing => event matches ConnectEvent::Probed(sent) && run.effects + sent
            <= u32::MAX,
        ConnectStage::Carrying => event is Carried,
    }
}

/// The facts that connecting establishes. Both facts about trust are true: one that
/// could not be established is a refusal, and never told to a machine as false.
pub open spec fn connect_guards(run: ConnectRun) -> Guards {
    Guards {
        credentials_valid: true,
        peer_authorized: true,
        usable_candidate: run.usable_candidate,
        no_candidate_either_family: run.no_candidate_either_family,
        ..Guards::none()
    }
}

/// How connecting begins. A session that holds sockets keeps them, and what is known
/// of its candidates is what was recorded.
pub open spec fn connect_first(m: CoreModel, run: ConnectRun) -> (ConnectRun, ConnectAction) {
    let name = run.session_id.bytes@;
    if m.sessions.contains_key(name) && m.sessions[name].sockets.len() > 0 {
        (
            ConnectRun {
                usable_candidate: m.sessions[name].rows.len() > 0,
                no_candidate_either_family: m.sessions[name].rows.len() == 0,
                stage: ConnectStage::Identifying,
                ..run
            },
            ConnectAction::Identify,
        )
    } else {
        (ConnectRun { stage: ConnectStage::Gathering, ..run }, ConnectAction::Gather)
    }
}

/// The refusal of a connect that may not proceed, if it may not: without an identity,
/// or to a peer that is not authorized. The two are different facts.
pub open spec fn distrusted(m: CoreModel, peer: DeviceId, identity: bool) -> Option<ReasonCode> {
    if !identity {
        Some(ReasonCode::AuthKeyUnavailable)
    } else if !m.planes.authorizes(peer) {
        Some(ReasonCode::AuthPeerUntrusted)
    } else {
        None
    }
}

/// A session after a round was recorded.
pub open spec fn rounded(session: SessionModel, round: Round) -> SessionModel {
    SessionModel {
        rows: session.rows + rows_of(round.gathered.candidates@),
        sockets: round.sockets@,
        raced: true,
        ..session
    }
}

/// A session that races candidates is probed before it is established.
pub open spec fn probes(m: CoreModel, run: ConnectRun) -> (ConnectRun, ConnectAction) {
    let name = run.session_id.bytes@;
    if m.sessions.contains_key(name) && m.sessions[name].raced {
        (ConnectRun { stage: ConnectStage::Probing, ..run }, ConnectAction::Probe)
    } else {
        (ConnectRun { stage: ConnectStage::Carrying, ..run }, ConnectAction::Carry)
    }
}

/// The machine is told of the first usable candidate, or that there is none.
pub open spec fn settles(m: CoreModel, run: ConnectRun) -> (ConnectRun, ConnectAction) {
    if run.usable_candidate {
        (
            ConnectRun { stage: ConnectStage::Settling, ..run },
            ConnectAction::Apply { event: Event::CandidatesReady, guards: connect_guards(run) },
        )
    } else if run.no_candidate_either_family {
        (
            ConnectRun { stage: ConnectStage::Settling, ..run },
            ConnectAction::Apply { event: Event::CandidateTimeout, guards: connect_guards(run) },
        )
    } else {
        probes(m, run)
    }
}

/// The record of a session that survives a restart.
pub open spec fn durable_of(run: ConnectRun, session: SessionModel) -> DurableSession {
    DurableSession {
        session_id: run.session_id,
        peer: run.peer,
        last_state: session.machine.state,
        last_reason: session.machine.reason,
    }
}

/// What a connect leaves behind: the durable record is queued, and that a connection
/// was asked for is published. Both report the same state.
pub open spec fn recorded_as(m: CoreModel, run: ConnectRun) -> CoreModel {
    let session = m.sessions[run.session_id.bytes@];
    let record = durable_of(run, session);
    CoreModel {
        journal: m.journal.insert(run.session_id.bytes@, record),
        planes: m.planes.accepted(
            WriteModel::Session {
                key: hex_text(run.session_id.bytes@),
                value: Some(session_octets(record)),
            },
        ),
        ..m
    }.session_told(
        SessionEvent::ConnectionRequested {
            session_id: run.session_id,
            state: session.machine.state,
            peer: run.peer,
            by_user: run.actor is Some,
        },
        run.actor,
    )
}

/// The core and the run after an event, and what to do next.
pub open spec fn connect_next(m: CoreModel, run: ConnectRun, event: ConnectEvent) -> (
    CoreModel,
    ConnectRun,
    ConnectAction,
) {
    let name = run.session_id.bytes@;
    match (run.stage, event) {
        (ConnectStage::Gathering, ConnectEvent::Gathered(round)) => (
            m,
            ConnectRun {
                effects: saturated(run.effects + 1),
                usable_candidate: round.gathered.candidates@.len() > 0,
                no_candidate_either_family: round.gathered.candidates@.len() == 0,
                round: Some(round),
                stage: ConnectStage::Identifying,
                ..run
            },
            ConnectAction::Identify,
        ),
        (ConnectStage::Identifying, ConnectEvent::Identity(identity)) => match distrusted(
            m,
            run.peer,
            identity,
        ) {
            Some(code) => (m, run, ConnectAction::Done(Err(refused_with(code)))),
            None => (
                m.with_session(m.session_or_new(run.session_id, run.peer)),
                ConnectRun { stage: ConnectStage::Requesting, ..run },
                ConnectAction::Apply {
                    event: Event::ConnectRequested,
                    guards: connect_guards(run),
                },
            ),
        },
        (ConnectStage::Requesting, ConnectEvent::Applied(applied)) => {
            let after = m.applied(run.session_id, applied, run.actor);
            let counted = saturated(run.effects + effects_of(applied));
            let run = ConnectRun { effects: counted, ..run };
            if run.round is Some && after.sessions.contains_key(name) {
                (
                    after,
                    ConnectRun { stage: ConnectStage::Admitting, ..run },
                    ConnectAction::ReadClock,
                )
            } else {
                let (next, action) = settles(after, ConnectRun { round: None, ..run });
                (after, next, action)
            }
        },
        (ConnectStage::Admitting, ConnectEvent::Now(now)) => match run.round {
            Some(round) if m.sessions.contains_key(name) => (
                m.with_session(rounded(m.sessions[name], round)),
                ConnectRun {
                    effects: saturated(run.effects + 1),
                    round: None,
                    stage: ConnectStage::Racing,
                    ..run
                },
                ConnectAction::Race(admission(round.gathered, now)),
            ),
            _ => {
                let (next, action) = settles(m, ConnectRun { round: None, ..run });
                (m, next, action)
            },
        },
        (ConnectStage::Racing, ConnectEvent::Raced) => {
            let (next, action) = settles(m, run);
            (m, next, action)
        },
        (ConnectStage::Settling, ConnectEvent::Applied(applied)) => {
            let after = m.applied(run.session_id, applied, run.actor);
            let counted = saturated(run.effects + effects_of(applied));
            let (next, action) = probes(after, ConnectRun { effects: counted, ..run });
            (after, next, action)
        },
        (ConnectStage::Probing, ConnectEvent::Probed(sent)) => (
            m,
            ConnectRun {
                effects: saturated(run.effects + sent),
                stage: ConnectStage::Carrying,
                ..run
            },
            ConnectAction::Carry,
        ),
        (ConnectStage::Carrying, ConnectEvent::Carried(effects)) => {
            let counted = saturated(run.effects + effects);
            if m.sessions.contains_key(name) {
                let all = saturated(counted + 2);
                (
                    recorded_as(m, run),
                    ConnectRun { effects: all, ..run },
                    ConnectAction::Done(Ok(all)),
                )
            } else {
                (
                    m,
                    ConnectRun { effects: counted, ..run },
                    ConnectAction::Done(Err(refused_with(ReasonCode::NetSessionClosedByUser))),
                )
            }
        },
        _ => (m, run, ConnectAction::Done(Ok(run.effects))),
    }
}

fn reject(code: ReasonCode) -> (d: Diagnostic)
    ensures
        d == refused_with(code),
{
    Diagnostic::new(code, Component::ManagementInterface)
}

fn guards_of(run: &ConnectRun) -> (g: Guards)
    ensures
        g == connect_guards(*run),
{
    Guards {
        credentials_valid: true,
        peer_authorized: true,
        usable_candidate: run.usable_candidate,
        no_candidate_either_family: run.no_candidate_either_family,
        ..Guards::default()
    }
}

/// Reads the two facts about trust, or refuses by name. Each refusal is a different
/// fact, and an operator acts differently on each.
pub fn trust_guards(core: &Core, peer: DeviceId, identity: bool) -> (r: Result<(), Diagnostic>)
    requires
        core.wf(),
    ensures
        r == (match distrusted(core@, peer, identity) {
            Some(code) => Err::<(), Diagnostic>(refused_with(code)),
            None => Ok::<(), Diagnostic>(()),
        }),
{
    if !identity {
        return Err(reject(ReasonCode::AuthKeyUnavailable));
    }
    if !core.data_plane_view().peer_authorized(peer) {
        return Err(reject(ReasonCode::AuthPeerUntrusted));
    }
    Ok(())
}

fn next_probe(core: &Core, run: ConnectRun) -> (r: (ConnectRun, ConnectAction))
    requires
        core.wf(),
    ensures
        r == probes(core@, run),
{
    let raced = match core.sessions.get(run.session_id) {
        Some(entry) => entry.raced,
        None => false,
    };
    if raced {
        (ConnectRun { stage: ConnectStage::Probing, ..run }, ConnectAction::Probe)
    } else {
        (ConnectRun { stage: ConnectStage::Carrying, ..run }, ConnectAction::Carry)
    }
}

fn settle(core: &Core, run: ConnectRun) -> (r: (ConnectRun, ConnectAction))
    requires
        core.wf(),
    ensures
        r == settles(core@, run),
{
    let guards = guards_of(&run);
    if run.usable_candidate {
        (
            ConnectRun { stage: ConnectStage::Settling, ..run },
            ConnectAction::Apply { event: Event::CandidatesReady, guards },
        )
    } else if run.no_candidate_either_family {
        (
            ConnectRun { stage: ConnectStage::Settling, ..run },
            ConnectAction::Apply { event: Event::CandidateTimeout, guards },
        )
    } else {
        next_probe(core, run)
    }
}

/// Queues the durable record and publishes that a connection was asked for.
fn recorded(core: &mut Core, run: &ConnectRun)
    requires
        old(core).wf(),
        old(core)@.room(1),
        old(core)@.sessions.contains_key(run.session_id.bytes@),
    ensures
        final(core).wf(),
        final(core)@ == recorded_as(old(core)@, *run),
{
    let machine = match core.sessions.get(run.session_id) {
        Some(entry) => entry.machine,
        None => {
            return;
        },
    };
    let record = DurableSession {
        session_id: run.session_id,
        peer: run.peer,
        last_state: machine.state,
        last_reason: machine.reason,
    };
    core.journal.persist(&mut core.port.shared, &record);
    core.publish_session_event(
        SessionEvent::ConnectionRequested {
            session_id: run.session_id,
            state: machine.state,
            peer: run.peer,
            by_user: run.actor.is_some(),
        },
        run.actor.clone(),
    );
}

/// A connect that nothing was done for yet.
pub open spec fn new_run(session_id: SessionId, peer: DeviceId, actor: Option<String>) -> ConnectRun {
    ConnectRun {
        session_id,
        peer,
        actor,
        effects: 0,
        usable_candidate: false,
        no_candidate_either_family: false,
        round: None,
        stage: ConnectStage::Gathering,
    }
}

/// How connecting again begins: like connecting, for a session that is known.
pub open spec fn reconnects(
    m: CoreModel,
    session_id: SessionId,
    peer: DeviceId,
    actor: Option<String>,
    r: Result<(ConnectRun, ConnectAction), Diagnostic>,
) -> bool {
    match r {
        Ok(begun) => m.sessions.contains_key(session_id.bytes@) && begun == connect_first(
            m,
            new_run(session_id, peer, actor),
        ),
        Err(d) => !m.sessions.contains_key(session_id.bytes@) && d == refused_with(
            ReasonCode::NetSessionClosedByUser,
        ),
    }
}

/// Begins to connect to a peer.
pub fn connect(core: &Core, session_id: SessionId, peer: DeviceId, actor: Option<String>) -> (r: (
    ConnectRun,
    ConnectAction,
))
    requires
        core.wf(),
    ensures
        r == connect_first(core@, new_run(session_id, peer, actor)),
{
    let run = ConnectRun {
        session_id,
        peer,
        actor,
        effects: 0,
        usable_candidate: false,
        no_candidate_either_family: false,
        round: None,
        stage: ConnectStage::Gathering,
    };
    if let Some(entry) = core.sessions.get(session_id) {
        if entry.sockets.len() > 0 {
            let known: usize = entry.rows.len();
            return (
                ConnectRun {
                    usable_candidate: known > 0,
                    no_candidate_either_family: known == 0,
                    stage: ConnectStage::Identifying,
                    ..run
                },
                ConnectAction::Identify,
            );
        }
    }
    (run, ConnectAction::Gather)
}

/// Begins to establish a session again. One that is not known is refused.
pub fn reconnect(core: &Core, session_id: SessionId, peer: DeviceId, actor: Option<String>) -> (r:
    Result<(ConnectRun, ConnectAction), Diagnostic>)
    requires
        core.wf(),
    ensures
        reconnects(core@, session_id, peer, actor, r),
{
    if !core.sessions.contains(session_id) {
        return Err(reject(ReasonCode::NetSessionClosedByUser));
    }
    Ok(connect(core, session_id, peer, actor))
}

/// Takes what came back, and says what to do next.
pub fn connect_step(core: &mut Core, run: ConnectRun, event: ConnectEvent) -> (r: (
    ConnectRun,
    ConnectAction,
))
    requires
        old(core).wf(),
        old(core)@.room(1),
        connect_fits(run, event),
    ensures
        final(core).wf(),
        (final(core)@, r.0, r.1) == connect_next(old(core)@, run, event),
{
    let session_id = run.session_id;
    match event {
        ConnectEvent::Gathered(round) => {
            let usable_candidate = round.gathered.usable_candidate();
            let no_candidate_either_family = round.gathered.no_candidate_either_family();
            (
                ConnectRun {
                    effects: run.effects.saturating_add(1),
                    usable_candidate,
                    no_candidate_either_family,
                    round: Some(round),
                    stage: ConnectStage::Identifying,
                    ..run
                },
                ConnectAction::Identify,
            )
        },
        ConnectEvent::Identity(identity) => {
            match trust_guards(core, run.peer, identity) {
                Err(diagnostic) => (run, ConnectAction::Done(Err(diagnostic))),
                Ok(()) => {
                    if !core.sessions.contains(session_id) {
                        core.sessions.put(SessionEntry::new(session_id, run.peer));
                    }
                    proof {
                        crate::session_table::every_session_is_named(old(core).sessions);
                        assert(core@ =~= old(core)@.with_session(
                            old(core)@.session_or_new(session_id, run.peer),
                        ));
                    }
                    let guards = guards_of(&run);
                    (
                        ConnectRun { stage: ConnectStage::Requesting, ..run },
                        ConnectAction::Apply { event: Event::ConnectRequested, guards },
                    )
                },
            }
        },
        ConnectEvent::Applied(applied) => {
            let n: u32 = core.apply(session_id, applied, run.actor.clone());
            let counted: u32 = run.effects.saturating_add(n);
            if run.stage == ConnectStage::Settling {
                return next_probe(core, ConnectRun { effects: counted, ..run });
            }
            let mut run = ConnectRun { effects: counted, ..run };
            if run.round.is_some() && core.sessions.contains(session_id) {
                return (
                    ConnectRun { stage: ConnectStage::Admitting, ..run },
                    ConnectAction::ReadClock,
                );
            }
            run.round = None;
            settle(core, run)
        },
        ConnectEvent::Now(now) => {
            let ghost before = core@;
            let mut run = run;
            let round = run.round.take();
            match round {
                Some(round) => {
                    match core.sessions.take(session_id) {
                        Some(entry) => {
                            let mut entry = entry;
                            let admitted = admit_round(&mut entry.rows, round.gathered, now);
                            entry.sockets = round.sockets;
                            entry.raced = true;
                            core.sessions.put(entry);
                            assert(core@ =~= before.with_session(
                                rounded(before.sessions[session_id.bytes@], round),
                            ));
                            (
                                ConnectRun {
                                    effects: run.effects.saturating_add(1),
                                    stage: ConnectStage::Racing,
                                    ..run
                                },
                                ConnectAction::Race(admitted),
                            )
                        },
                        None => {
                            assert(core@ =~= before);
                            settle(core, run)
                        },
                    }
                },
                None => settle(core, run),
            }
        },
        ConnectEvent::Raced => settle(core, run),
        ConnectEvent::Probed(sent) => (
            ConnectRun {
                effects: run.effects + sent,
                stage: ConnectStage::Carrying,
                ..run
            },
            ConnectAction::Carry,
        ),
        ConnectEvent::Carried(effects) => {
            let counted: u32 = run.effects.saturating_add(effects);
            if !core.sessions.contains(session_id) {
                return (
                    ConnectRun { effects: counted, ..run },
                    ConnectAction::Done(Err(reject(ReasonCode::NetSessionClosedByUser))),
                );
            }
            recorded(core, &run);
            let all: u32 = counted.saturating_add(2);
            (ConnectRun { effects: all, ..run }, ConnectAction::Done(Ok(all)))
        },
    }
}

/// A connect whose trust facts do not hold is refused by name, and leaves the core as
/// it was: no session is created and no machine is told.
pub proof fn a_distrusted_connect_changes_nothing(m: CoreModel, run: ConnectRun, identity: bool)
    requires
        run.stage == ConnectStage::Identifying,
        !identity || !m.planes.authorizes(run.peer),
    ensures
        connect_next(m, run, ConnectEvent::Identity(identity)).0 == m,
        connect_next(m, run, ConnectEvent::Identity(identity)).2 == ConnectAction::Done(
            Err(
                refused_with(
                    if identity {
                        ReasonCode::AuthPeerUntrusted
                    } else {
                        ReasonCode::AuthKeyUnavailable
                    },
                ),
            ),
        ),
{
}

/// A round that is admitted is raced whole, from the time that was read, and its first
/// direct probe is stamped with that time exactly where it has a candidate. Each of its
/// candidates is on record.
pub proof fn an_admitted_round_is_stamped(m: CoreModel, run: ConnectRun, now: u64)
    requires
        m.named(),
        run.stage == ConnectStage::Admitting,
        run.round is Some,
        m.sessions.contains_key(run.session_id.bytes@),
    ensures
        ({
            let (after, _, action) = connect_next(m, run, ConnectEvent::Now(now));
            let found = run.round->0.gathered.candidates;
            &&& action matches ConnectAction::Race(a) && a.candidates == found && a.now == now
                && a.first_direct_probe == (if found@.len() > 0 {
                Some(now)
            } else {
                None
            })
            &&& after.sessions[run.session_id.bytes@].rows
                == m.sessions[run.session_id.bytes@].rows + rows_of(found@)
        }),
{
}

/// Every machine that connecting tells anything is told that the credentials are valid
/// and the peer is authorized, and only an authorized peer's ever gets that far.
pub proof fn a_machine_is_told_only_of_trust_that_holds(
    m: CoreModel,
    run: ConnectRun,
    event: ConnectEvent,
)
    requires
        connect_fits(run, event),
    ensures
        connect_next(m, run, event).2 matches ConnectAction::Apply { guards, .. }
            ==> guards.credentials_valid && guards.peer_authorized,
        connect_next(m, run, event).2 matches ConnectAction::Apply { event: told, .. } ==> told
            == Event::ConnectRequested ==> m.planes.authorizes(run.peer) && event
            == ConnectEvent::Identity(true),
{
}

/// A second connect to a session that holds sockets gathers nothing, and keeps its
/// sockets and its candidates to the end.
pub proof fn a_second_connect_keeps_what_was_gathered(
    m: CoreModel,
    run: ConnectRun,
    event: ConnectEvent,
    name: Seq<u8>,
)
    requires
        m.named(),
        connect_fits(run, event),
        m.sessions.contains_key(name),
        m.sessions[name].sockets.len() > 0,
        run.round is None,
    ensures
        run.session_id.bytes@ == name ==> connect_first(m, run).1 == ConnectAction::Identify,
        event is Gathered || connect_next(m, run, event).1.round is None,
        connect_next(m, run, event).0.sessions[name].sockets == m.sessions[name].sockets,
        connect_next(m, run, event).0.sessions[name].rows == m.sessions[name].rows,
{
}

/// A connect that succeeds leaves a durable record and an event that report the state
/// that the session's machine reached.
pub proof fn a_connect_leaves_its_record(m: CoreModel, run: ConnectRun, effects: u32)
    requires
        run.stage == ConnectStage::Carrying,
        m.sessions.contains_key(run.session_id.bytes@),
    ensures
        connect_next(m, run, ConnectEvent::Carried(effects)).0.journal[run.session_id.bytes@]
            == durable_of(run, m.sessions[run.session_id.bytes@]),
        connect_next(m, run, ConnectEvent::Carried(effects)).2 matches ConnectAction::Done(Ok(n))
            && n > 0,
{
}

} // verus!
