//! What is told to every session in turn: that it is no longer wanted, that the host
//! sleeps or wakes, that a link came or went.

use vstd::prelude::*;

use crate::datapath::outcome::PlatformError;
use crate::dispatch::{lifecycle_of, Lifecycle};
use crate::enforce::{teardown, teardown_first, teardown_next, teardown_step, Enforcement,
    TeardownAction, TeardownStage};
use crate::establish::InterfaceFacts;
use crate::execute::establishment::saturated;
use crate::instance::{effects_of, refused_with, Core, CoreModel};
use crate::journal::hex_text;
use crate::planes::WriteModel;
use crate::reason::{Component, Diagnostic, ReasonCode};
use crate::session::Event;
use crate::session_table::{carries, lists_carrying, lists_names, Applied, SessionModel};
use crate::types::SessionId;

verus! {

/// A walk over the sessions that were known when it began.
#[derive(Debug)]
pub struct Sweep {
    /// The sessions.
    pub ids: Vec<SessionId>,
    /// Which one is told.
    pub at: usize,
    /// What they are told.
    pub event: Event,
    /// Whether each is torn down first and forgotten after.
    pub close: bool,
    /// The principal that asked.
    pub actor: Option<String>,
    /// How many effects there were.
    pub effects: u32,
}

/// What a walk is to do next.
#[derive(Debug, Clone, Copy)]
pub enum SweepAction {
    /// Tell this session's machine.
    Apply {
        /// Which session.
        session_id: SessionId,
        /// What.
        event: Event,
        /// Whether its directions are to be stopped first.
        stop: bool,
    },
    /// Nothing more: how many effects there were.
    Done(u32),
}

/// The first of these sessions, from `at` on, that is still known.
pub open spec fn next_known(
    sessions: Map<Seq<u8>, SessionModel>,
    ids: Seq<SessionId>,
    at: int,
) -> int
    decreases ids.len() - at,
{
    if at >= ids.len() || at < 0 {
        ids.len() as int
    } else if sessions.contains_key(ids[at].bytes@) {
        at
    } else {
        next_known(sessions, ids, at + 1)
    }
}

/// After a session was torn down, if it is known.
pub open spec fn one_torn_down(m: CoreModel, session_id: SessionId) -> CoreModel {
    m.with_session(m.sessions[session_id.bytes@].torn_down())
}

/// After a session that was closed answered: the transition is told, and the session is
/// not resumed after a restart.
pub open spec fn closed_with(
    m: CoreModel,
    session_id: SessionId,
    applied: Applied,
    actor: Option<String>,
) -> CoreModel {
    let after = m.applied(session_id, applied, actor);
    if applied.record is Some {
        CoreModel {
            journal: after.journal.remove(session_id.bytes@),
            planes: after.planes.accepted(
                WriteModel::Session { key: hex_text(session_id.bytes@), value: None },
            ),
            ..after
        }
    } else {
        after
    }
}

/// How many effects a close has: the transition, and that the session is forgotten.
pub open spec fn close_effects(applied: Applied) -> u32 {
    if applied.record is Some {
        2
    } else {
        0
    }
}

/// The walk goes on to the next session that is known, which is torn down first where
/// the walk closes.
pub open spec fn sweep_on(m: CoreModel, s: Sweep, from: int) -> (CoreModel, Sweep, SweepAction) {
    let at = next_known(m.sessions, s.ids@, from);
    if at < s.ids@.len() {
        (
            if s.close {
                one_torn_down(m, s.ids@[at])
            } else {
                m
            },
            Sweep { at: at as usize, ..s },
            SweepAction::Apply { session_id: s.ids@[at], event: s.event, stop: s.close },
        )
    } else {
        (m, Sweep { at: at as usize, ..s }, SweepAction::Done(s.effects))
    }
}

/// The core and the walk after a session's machine answered, and what to do next.
pub open spec fn sweep_next(m: CoreModel, s: Sweep, applied: Applied) -> (
    CoreModel,
    Sweep,
    SweepAction,
) {
    let id = s.ids@[s.at as int];
    if s.close {
        sweep_on(
            closed_with(m, id, applied, s.actor),
            Sweep { effects: saturated(s.effects + close_effects(applied)), ..s },
            s.at + 1,
        )
    } else {
        sweep_on(
            m.applied(id, applied, s.actor),
            Sweep { effects: saturated(s.effects + effects_of(applied)), ..s },
            s.at + 1,
        )
    }
}

/// After a session was torn down to be closed, if it is known.
pub open spec fn one_closed(m: CoreModel, session_id: SessionId) -> CoreModel {
    if m.sessions.contains_key(session_id.bytes@) {
        one_torn_down(m, session_id)
    } else {
        m
    }
}

/// Tears a session down, if it is known, before its machine is told: whoever sees it
/// disconnected sees no packet after. Says whether there is a machine to tell.
pub fn close_one(core: &mut Core, session_id: SessionId) -> (known: bool)
    requires
        old(core).wf(),
    ensures
        final(core).wf(),
        known == old(core)@.sessions.contains_key(session_id.bytes@),
        final(core)@ == one_closed(old(core)@, session_id),
{
    match core.sessions.take(session_id) {
        None => {
            assert(core@ =~= old(core)@);
            false
        },
        Some(entry) => {
            let mut entry = entry;
            let _ = entry.tear_down();
            core.sessions.put(entry);
            assert(core@ =~= one_torn_down(old(core)@, session_id));
            true
        },
    }
}

/// Takes a closed session's answer. A machine that moved is told of, and its session is
/// forgotten, so that it does not come back after a restart.
pub fn closed(core: &mut Core, session_id: SessionId, applied: Applied, actor: Option<String>) -> (n:
    u32)
    requires
        old(core).wf(),
        old(core)@.room(1),
    ensures
        final(core).wf(),
        final(core)@ == closed_with(old(core)@, session_id, applied, actor),
        n == close_effects(applied),
{
    let n: u32 = core.apply(session_id, applied, actor);
    if applied.record.is_some() {
        core.journal.forget(&mut core.port.shared, session_id);
        return n + 1;
    }
    n
}

fn go_on(core: &mut Core, s: Sweep, from: usize) -> (r: (Sweep, SweepAction))
    requires
        old(core).wf(),
        from <= s.ids@.len(),
    ensures
        final(core).wf(),
        (final(core)@, r.0, r.1) == sweep_on(old(core)@, s, from as int),
{
    let mut at: usize = from;
    while at < s.ids.len()
        invariant
            from <= at <= s.ids@.len(),
            core.wf(),
            core@ == old(core)@,
            next_known(core@.sessions, s.ids@, from as int) == next_known(
                core@.sessions,
                s.ids@,
                at as int,
            ),
        decreases s.ids@.len() - at,
    {
        let id = s.ids[at];
        if core.sessions.contains(id) {
            if s.close {
                let _ = close_one(core, id);
            }
            let event = s.event;
            let stop = s.close;
            return (
                Sweep { at, ..s },
                SweepAction::Apply { session_id: id, event, stop },
            );
        }
        at += 1;
    }
    let effects: u32 = s.effects;
    (Sweep { at, ..s }, SweepAction::Done(effects))
}

/// Begins a walk over every session that is known.
pub fn sweep(core: &mut Core, event: Event, close: bool, actor: Option<String>, effects: u32) -> (r:
    (Sweep, SweepAction))
    requires
        old(core).wf(),
    ensures
        final(core).wf(),
        lists_names(old(core)@.sessions, r.0.ids@),
        (final(core)@, r.0, r.1) == sweep_on(
            old(core)@,
            (Sweep { ids: r.0.ids, at: 0, event, close, actor, effects }),
            0,
        ),
{
    let ids = core.sessions.ids();
    go_on(core, Sweep { ids, at: 0, event, close, actor, effects }, 0)
}

/// Takes a session's answer, and goes on.
pub fn sweep_step(core: &mut Core, s: Sweep, applied: Applied) -> (r: (Sweep, SweepAction))
    requires
        old(core).wf(),
        old(core)@.room(1),
        s.at < s.ids@.len(),
    ensures
        final(core).wf(),
        (final(core)@, r.0, r.1) == sweep_next(old(core)@, s, applied),
{
    let id = s.ids[s.at];
    let n: u32 = if s.close {
        closed(core, id, applied, s.actor.clone())
    } else {
        core.apply(id, applied, s.actor.clone())
    };
    let from: usize = if s.at < s.ids.len() { s.at + 1 } else { s.at };
    let counted = Sweep { effects: s.effects.saturating_add(n), ..s };
    go_on(core, counted, from)
}

/// What taking a lifecycle phase leaves, and the walk that it begins.
pub open spec fn phase_taken(
    m: CoreModel,
    params: Seq<u8>,
    actor: Option<String>,
    after: CoreModel,
    r: Result<(Sweep, SweepAction), Diagnostic>,
) -> bool {
    match lifecycle_of(params) {
        None => {
            &&& r == Err::<(Sweep, SweepAction), Diagnostic>(
                refused_with(ReasonCode::ProtoMalformedMessage),
            )
            &&& after == m
        },
        Some(phase) => {
            &&& r matches Ok((s, action))
            &&& lists_names(m.sessions, s.ids@)
            &&& (after, s, action) == sweep_on(
                (CoreModel { lifecycle: phase, ..m }),
                (Sweep {
                    ids: s.ids,
                    at: 0,
                    event: phase.told(),
                    close: false,
                    actor,
                    effects: 1,
                }),
                0,
            )
        },
    }
}

/// Takes a lifecycle phase from a request's parameters, and begins to tell every
/// session. That the phase is kept is an effect by itself.
pub fn host_lifecycle(core: &mut Core, params: &[u8], actor: Option<String>) -> (r: Result<
    (Sweep, SweepAction),
    Diagnostic,
>)
    requires
        old(core).wf(),
    ensures
        final(core).wf(),
        phase_taken(old(core)@, params@, actor, final(core)@, r),
{
    match Lifecycle::from_params(params) {
        None => Err(
            Diagnostic::new(ReasonCode::ProtoMalformedMessage, Component::ManagementInterface),
        ),
        Some(phase) => {
            core.lifecycle = phase;
            Ok(sweep(core, phase.event(), false, actor, 1))
        },
    }
}

/// Some link that is not the overlay is up.
pub open spec fn some_link_up(facts: Seq<InterfaceFacts>) -> bool {
    exists|i: int| 0 <= i < facts.len() && (#[trigger] facts[i]).is_up && !facts[i].is_overlay
}

/// What the sessions are told of these interfaces.
pub open spec fn link_told(facts: Seq<InterfaceFacts>) -> Event {
    if some_link_up(facts) {
        Event::LinkUp
    } else {
        Event::LinkDown
    }
}

fn link_up(facts: &Vec<InterfaceFacts>) -> (up: bool)
    ensures
        up == some_link_up(facts@),
{
    let mut i: usize = 0;
    while i < facts.len()
        invariant
            i <= facts@.len(),
            forall|j: int| 0 <= j < i ==> !((#[trigger] facts@[j]).is_up && !facts@[j].is_overlay),
        decreases facts@.len() - i,
    {
        if facts[i].is_up && !facts[i].is_overlay {
            assert(facts@[i as int].is_up && !facts@[i as int].is_overlay);
            return true;
        }
        i += 1;
    }
    false
}

/// What a re-enumeration of the interfaces means: whether a link is up. Where the
/// platform refused to list them nothing is known, and no link is taken for lost.
#[must_use]
pub fn link_event(facts: &Option<Vec<InterfaceFacts>>) -> (e: Option<Event>)
    ensures
        e == (match *facts {
            None => None,
            Some(list) => Some(link_told(list@)),
        }),
{
    match facts {
        None => None,
        Some(list) => {
            if link_up(list) {
                Some(Event::LinkUp)
            } else {
                Some(Event::LinkDown)
            }
        },
    }
}

/// What taking that the network changed leaves, and the walk that it begins.
pub open spec fn network_taken(
    m: CoreModel,
    facts: Option<Vec<InterfaceFacts>>,
    actor: Option<String>,
    after: CoreModel,
    r: Option<(Sweep, SweepAction)>,
) -> bool {
    match facts {
        None => r is None && after == m,
        Some(list) => {
            &&& r matches Some((s, action))
            &&& lists_names(m.sessions, s.ids@)
            &&& (after, s, action) == sweep_on(
                m,
                (Sweep {
                    ids: s.ids,
                    at: 0,
                    event: link_told(list@),
                    close: false,
                    actor,
                    effects: 1,
                }),
                0,
            )
        },
    }
}

/// Takes that the network changed: the interfaces as they were listed anew, or `None`
/// where that was refused. Begins to tell every session, unless nothing is known;
/// `None` then, and the one effect is that it was asked.
pub fn host_network_changed(
    core: &mut Core,
    facts: &Option<Vec<InterfaceFacts>>,
    actor: Option<String>,
) -> (r: Option<(Sweep, SweepAction)>)
    requires
        old(core).wf(),
    ensures
        final(core).wf(),
        network_taken(old(core)@, *facts, actor, final(core)@, r),
{
    match link_event(facts) {
        None => None,
        Some(event) => Some(sweep(core, event, false, actor, 1)),
    }
}

/// What taking the network down waits for.
#[derive(Debug)]
pub enum DownStage {
    /// The machines of the sessions that are closed.
    Closing(Sweep),
    /// What carries, stopped.
    Stopping {
        /// How many effects there were.
        effects: u32,
    },
    /// The tunnel, taken down.
    TearingDown {
        /// What the teardown waits for.
        stage: TeardownStage,
        /// How many effects there were.
        effects: u32,
    },
    /// Nothing.
    Over,
}

/// What came back.
#[derive(Debug)]
pub enum DownEvent {
    /// A session's machine answered.
    Applied(Applied),
    /// What was to be stopped is stopped.
    Stopped,
    /// What the platform answered to a step of the teardown.
    Did(Result<(), PlatformError>),
}

/// What to do next.
#[derive(Debug)]
pub enum DownAction {
    /// Stop this session's directions, and tell its machine.
    Apply {
        /// Which session.
        session_id: SessionId,
        /// What.
        event: Event,
    },
    /// Stop the directions of these sessions, and then erase their keys.
    Stop(Vec<SessionId>),
    /// Go on with the teardown.
    Tear(TeardownAction),
    /// Nothing more: how many effects there were.
    Done(u32),
}

/// The event answers what the stage waits for.
pub open spec fn down_fits(stage: DownStage, event: DownEvent) -> bool {
    match stage {
        DownStage::Closing(s) => event is Applied && s.at < s.ids@.len(),
        DownStage::Stopping { .. } => event is Stopped,
        DownStage::TearingDown { .. } => event is Did,
        DownStage::Over => false,
    }
}

/// The walk that closes goes on; and where it is over, everything that still carries is
/// stopped.
pub open spec fn closes_on(
    walked: (CoreModel, Sweep, SweepAction),
    after: CoreModel,
    next: DownStage,
    action: DownAction,
) -> bool {
    match walked.2 {
        SweepAction::Apply { session_id, event, .. } => {
            &&& after == walked.0
            &&& next == DownStage::Closing(walked.1)
            &&& action == (DownAction::Apply { session_id, event })
        },
        SweepAction::Done(effects) => {
            &&& after == walked.0.all_torn_down()
            &&& next == (DownStage::Stopping { effects: saturated(effects + 1) })
            &&& action matches DownAction::Stop(ids) && lists_carrying(walked.0.sessions, ids@)
        },
    }
}

/// The core with this enforcement, after what a teardown has to say was published.
pub open spec fn enforced(m: CoreModel, e: Enforcement, publish: Option<Diagnostic>) -> CoreModel {
    match publish {
        Some(diagnostic) => CoreModel { enforcement: e, ..m }.diagnosed(diagnostic),
        None => CoreModel { enforcement: e, ..m },
    }
}

/// One step of taking the network down: every session is closed, then everything that
/// carries is stopped, and only then is the tunnel taken down.
pub open spec fn goes_down(
    m: CoreModel,
    stage: DownStage,
    event: DownEvent,
    after: CoreModel,
    next: DownStage,
    action: DownAction,
) -> bool {
    match (stage, event) {
        (DownStage::Closing(s), DownEvent::Applied(applied)) => closes_on(
            sweep_next(m, s, applied),
            after,
            next,
            action,
        ),
        (DownStage::Stopping { effects }, DownEvent::Stopped) => {
            let (e, first, act) = teardown_first(m.enforcement);
            &&& after == enforced(m, e, None)
            &&& next == (DownStage::TearingDown { stage: first, effects })
            &&& action == DownAction::Tear(act)
        },
        (DownStage::TearingDown { stage, effects }, DownEvent::Did(did)) => {
            let (e, then, publish, act) = teardown_next(m.enforcement, stage, did);
            &&& after == enforced(m, e, publish)
            &&& if act == TeardownAction::Done {
                next == DownStage::Over && action == DownAction::Done(saturated(effects + 1))
            } else {
                next == (DownStage::TearingDown { stage: then, effects }) && action
                    == DownAction::Tear(act)
            }
        },
        _ => true,
    }
}

fn close_on(core: &mut Core, s: Sweep, action: SweepAction) -> (r: (DownStage, DownAction))
    requires
        old(core).wf(),
    ensures
        final(core).wf(),
        closes_on((old(core)@, s, action), final(core)@, r.0, r.1),
{
    match action {
        SweepAction::Apply { session_id, event, .. } => (
            DownStage::Closing(s),
            DownAction::Apply { session_id, event },
        ),
        SweepAction::Done(effects) => {
            let stopped = core.stop_all();
            (
                DownStage::Stopping { effects: effects.saturating_add(1) },
                DownAction::Stop(stopped),
            )
        },
    }
}

/// A walk that closes these sessions.
pub open spec fn closing(ids: Vec<SessionId>, actor: Option<String>) -> Sweep {
    Sweep { ids, at: 0, event: Event::DisconnectRequested, close: true, actor, effects: 0 }
}

/// How taking the network down begins: every session that is known is closed.
pub open spec fn down_first(
    m: CoreModel,
    actor: Option<String>,
    after: CoreModel,
    next: DownStage,
    action: DownAction,
) -> bool {
    exists|ids: Vec<SessionId>| #[trigger]
        lists_names(m.sessions, ids@) && closes_on(
            sweep_on(m, closing(ids, actor), 0),
            after,
            next,
            action,
        )
}

/// Begins to take the whole network down: every session is closed.
pub fn net_down(core: &mut Core, actor: Option<String>) -> (r: (DownStage, DownAction))
    requires
        old(core).wf(),
    ensures
        final(core).wf(),
        down_first(old(core)@, actor, final(core)@, r.0, r.1),
{
    let (s, action) = sweep(core, Event::DisconnectRequested, true, actor, 0);
    let ghost ids = s.ids;
    assert(lists_names(old(core)@.sessions, ids@));
    close_on(core, s, action)
}

/// Takes what came back, and says what to do next.
pub fn net_down_step(core: &mut Core, stage: DownStage, event: DownEvent) -> (r: (
    DownStage,
    DownAction,
))
    requires
        old(core).wf(),
        old(core)@.room(1),
        down_fits(stage, event),
    ensures
        final(core).wf(),
        goes_down(old(core)@, stage, event, final(core)@, r.0, r.1),
{
    match (stage, event) {
        (DownStage::Closing(s), DownEvent::Applied(applied)) => {
            let (s, action) = sweep_step(core, s, applied);
            close_on(core, s, action)
        },
        (DownStage::Stopping { effects }, DownEvent::Stopped) => {
            let (first, act) = teardown(&mut core.enforcement);
            (DownStage::TearingDown { stage: first, effects }, DownAction::Tear(act))
        },
        (DownStage::TearingDown { stage, effects }, DownEvent::Did(did)) => {
            let (then, publish, act) = teardown_step(&mut core.enforcement, stage, did);
            if let Some(diagnostic) = publish {
                core.publish_diagnostic(diagnostic);
            }
            if act == TeardownAction::Done {
                (DownStage::Over, DownAction::Done(effects.saturating_add(1)))
            } else {
                (DownStage::TearingDown { stage: then, effects }, DownAction::Tear(act))
            }
        },
        _ => (DownStage::Over, DownAction::Done(0)),
    }
}

/// No session is carried any more.
pub open spec fn nothing_carries(m: CoreModel) -> bool {
    forall|name: Seq<u8>| !#[trigger] carries(m.sessions, name)
}

/// Taking the network down stops what carries before it touches the tunnel: once a step
/// of the teardown is asked for, nothing carries, and nothing comes to.
pub proof fn the_tunnel_goes_after_what_it_carries(
    m: CoreModel,
    stage: DownStage,
    event: DownEvent,
    after: CoreModel,
    next: DownStage,
    action: DownAction,
)
    requires
        down_fits(stage, event),
        goes_down(m, stage, event, after, next, action),
        !(stage is Closing) ==> nothing_carries(m),
    ensures
        action is Tear ==> stage is Stopping || stage is TearingDown,
        !(next is Closing) ==> nothing_carries(after),
        action is Tear || action is Done ==> nothing_carries(after),
{
}

proof fn next_known_is_known(sessions: Map<Seq<u8>, SessionModel>, ids: Seq<SessionId>, at: int)
    requires
        0 <= at <= ids.len(),
    ensures
        at <= next_known(sessions, ids, at) <= ids.len(),
        next_known(sessions, ids, at) < ids.len() ==> sessions.contains_key(
            ids[next_known(sessions, ids, at)].bytes@,
        ),
    decreases ids.len() - at,
{
    if at < ids.len() && !sessions.contains_key(ids[at].bytes@) {
        next_known_is_known(sessions, ids, at + 1);
    }
}

/// No walk touches what is enforced: taking the network down clears nothing.
pub proof fn a_walk_keeps_the_rules(m: CoreModel, s: Sweep, applied: Applied)
    ensures
        sweep_on(m, s, 0).0.enforcement == m.enforcement,
        sweep_next(m, s, applied).0.enforcement == m.enforcement,
{
}

/// A walk tells only sessions that are known, each at most once, and a walk that closes
/// has torn a session down before its machine is told.
pub proof fn a_closed_session_is_torn_down_first(m: CoreModel, s: Sweep, from: int)
    requires
        m.named(),
        0 <= from <= s.ids@.len() <= usize::MAX,
    ensures
        sweep_on(m, s, from).1.at >= from,
        sweep_on(m, s, from).2 matches SweepAction::Apply { session_id, .. } ==> {
            &&& m.sessions.contains_key(session_id.bytes@)
            &&& sweep_on(m, s, from).0.sessions.contains_key(session_id.bytes@)
            &&& s.close ==> !sweep_on(m, s, from).0.sessions[session_id.bytes@].is_carrying()
        },
{
    next_known_is_known(m.sessions, s.ids@, from);
}

/// A session that was closed and whose machine moved is not in the journal any more.
pub proof fn a_closed_session_is_forgotten(
    m: CoreModel,
    session_id: SessionId,
    applied: Applied,
    actor: Option<String>,
)
    requires
        applied.record is Some,
    ensures
        !closed_with(m, session_id, applied, actor).journal.contains_key(session_id.bytes@),
{
}

} // verus!
