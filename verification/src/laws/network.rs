//! Bringing the whole network up, and taking it down.

use vstd::prelude::*;

use crate::enforce::{teardown_first, teardown_next, TeardownAction};
use crate::execute::bring_up::{up_first, up_fits, up_next, KnownPeer, UpAction, UpEvent, UpRun};
use crate::execute::sweep::{closed_with, down_fits, down_first, goes_down, next_known, one_torn_down,
    sweep_next, sweep_on, DownAction, DownEvent, DownStage, Sweep, SweepAction};
use crate::instance::CoreModel;
use crate::journal::hex_text;
use crate::planes::WriteModel;
use crate::reason::Diagnostic;
use crate::session_table::{lists_names, Applied, SessionModel};
use crate::types::SessionId;

verus! {

/// What is known of the sessions at some moment, and the order they are walked in.
pub struct Known {
    /// The sessions.
    pub sessions: Map<Seq<u8>, SessionModel>,
    /// The order.
    pub order: Seq<Seq<u8>>,
}

/// One moment of bringing the network up: the run and what it asks for.
pub struct UpMoment {
    /// The run.
    pub run: UpRun,
    /// What it asks for.
    pub action: UpAction,
}

/// A run of bringing the network up: it begins with what is known, and each event answers
/// what was asked for and is followed by the next moment.
pub open spec fn is_up_run(known: Seq<Known>, moments: Seq<UpMoment>, events: Seq<UpEvent>) -> bool {
    &&& moments.len() == events.len() + 1
    &&& known.len() == moments.len()
    &&& up_first(known[0].sessions, (moments[0].run, moments[0].action))
    &&& forall|i: int| 0 <= i < events.len() ==> #[trigger] up_moves(known, moments, events, i)
}

/// The `i`-th event of such a run.
pub open spec fn up_moves(
    known: Seq<Known>,
    moments: Seq<UpMoment>,
    events: Seq<UpEvent>,
    i: int,
) -> bool {
    &&& up_fits(moments[i].run, events[i])
    &&& up_steps(known[i + 1], moments[i], events[i], moments[i + 1])
}

/// One event of such a run.
pub open spec fn up_steps(known: Known, before: UpMoment, event: UpEvent, after: UpMoment) -> bool {
    up_next(known.sessions, known.order, before.run, event, (after.run, after.action))
}

proof fn a_run_connects_in_order(
    known: Seq<Known>,
    moments: Seq<UpMoment>,
    events: Seq<UpEvent>,
    i: int,
)
    requires
        is_up_run(known, moments, events),
        0 <= i < moments.len(),
        forall|j: int| 0 <= j < i ==> (#[trigger] events[j]) is Connected,
    ensures
        ({
            let peers = moments[0].run.peers@;
            &&& i <= peers.len()
            &&& moments[i].run.peers@ == peers
            &&& moments[i].run.at == i
            &&& moments[i].run.established@.len() == 0
            &&& i < peers.len() ==> moments[i].action == UpAction::Connect(peers[i])
            &&& i == peers.len() ==> moments[i].action == UpAction::Arm
        }),
    decreases i,
{
    if i > 0 {
        a_run_connects_in_order(known, moments, events, i - 1);
        assert(up_moves(known, moments, events, i - 1));
        assert(events[i - 1] is Connected);
        assert(moments[i - 1].run.peers.len() <= usize::MAX);
    }
}

/// Every session that is known when the network is brought up is connected to, once and
/// with its own peer, whatever the earlier ones came to; and the rules are armed right
/// after the last of them was answered, and not before.
pub proof fn every_known_session_is_connected_to_before_arming(
    known: Seq<Known>,
    moments: Seq<UpMoment>,
    events: Seq<UpEvent>,
    i: int,
)
    requires
        is_up_run(known, moments, events),
        0 <= i < moments.len(),
        forall|j: int| 0 <= j < i ==> (#[trigger] events[j]) is Connected,
    ensures
        ({
            let sessions = known[0].sessions;
            let peers = moments[0].run.peers@;
            &&& moments[i].action == UpAction::Arm <==> i == peers.len()
            &&& moments[i].action is Connect <==> i < peers.len()
            &&& i < peers.len() ==> {
                &&& moments[i].action == UpAction::Connect(peers[i])
                &&& sessions.contains_key(peers[i].session_id.bytes@)
                &&& sessions[peers[i].session_id.bytes@].peer == peers[i].peer
            }
            &&& forall|a: int, b: int|
                0 <= a < b < peers.len() ==> (#[trigger] peers[a]).session_id.bytes@ != (
                #[trigger] peers[b]).session_id.bytes@
            &&& forall|name: Seq<u8>| #[trigger]
                sessions.contains_key(name) ==> exists|a: int|
                    0 <= a < peers.len() && (#[trigger] peers[a]).session_id.bytes@ == name
        }),
{
    a_run_connects_in_order(known, moments, events, i);
    let sessions = known[0].sessions;
    let peers = moments[0].run.peers@;
    let ids = peers.map_values(|p: KnownPeer| p.session_id);
    let names = crate::session_table::names_of(ids);
    if i < peers.len() {
        assert(sessions.contains_key(ids[i].bytes@));
    }
    assert forall|a: int, b: int| 0 <= a < b < peers.len() implies (
    #[trigger] peers[a]).session_id.bytes@ != (#[trigger] peers[b]).session_id.bytes@ by {
        assert(names[a] == peers[a].session_id.bytes@);
        assert(names[b] == peers[b].session_id.bytes@);
        crate::octets::before_irreflexive(names[a]);
    }
    assert forall|name: Seq<u8>| #[trigger] sessions.contains_key(name) implies exists|a: int|
        0 <= a < peers.len() && (#[trigger] peers[a]).session_id.bytes@ == name by {
        let a = choose|a: int| 0 <= a < ids.len() && (#[trigger] ids[a]).bytes@ == name;
        assert(peers[a].session_id.bytes@ == name);
    }
}

/// A refusal to arm is what bringing the network up is answered with: nothing is started.
pub proof fn a_refusal_to_arm_is_the_answer(
    known: Known,
    before: UpMoment,
    refusal: Diagnostic,
    after: UpMoment,
)
    requires
        up_steps(known, before, UpEvent::Armed(Err(refusal)), after),
    ensures
        after.action == UpAction::Done(Err(refusal)),
{
}

/// Once the rules are armed exactly the sessions that a tunnel carries then are started,
/// one after the other and each whatever the earlier ones came to; after the last one it is
/// over, with at least one effect.
pub proof fn every_carried_session_is_started(
    known: Seq<Known>,
    moments: Seq<UpMoment>,
    events: Seq<UpEvent>,
    armed: int,
    i: int,
)
    requires
        is_up_run(known, moments, events),
        0 <= armed < events.len(),
        events[armed] == UpEvent::Armed(Ok(())),
        armed < i < moments.len(),
        forall|j: int| armed < j < i ==> (#[trigger] events[j]) is Started,
    ensures
        ({
            let started = moments[armed + 1].run.established@;
            let k = i - armed - 1;
            &&& k <= started.len()
            &&& k < started.len() ==> moments[i].action == UpAction::Start(started[k])
            &&& k == started.len() ==> (moments[i].action matches UpAction::Done(Ok(n)) && n > 0)
            &&& crate::session_table::names_of(started) == crate::session_table::carried(
                known[armed + 1].sessions,
                known[armed + 1].order,
            )
        }),
{
    runs_through_its_pumps(known, moments, events, armed, i);
}

proof fn runs_through_its_pumps(
    known: Seq<Known>,
    moments: Seq<UpMoment>,
    events: Seq<UpEvent>,
    armed: int,
    i: int,
)
    requires
        is_up_run(known, moments, events),
        0 <= armed < events.len(),
        events[armed] == UpEvent::Armed(Ok(())),
        armed < i < moments.len(),
        forall|j: int| armed < j < i ==> (#[trigger] events[j]) is Started,
    ensures
        ({
            let started = moments[armed + 1].run.established@;
            let k = i - armed - 1;
            &&& moments[i].run.established@ == started
            &&& moments[i].run.at == k
            &&& k <= started.len()
            &&& k < started.len() ==> moments[i].action == UpAction::Start(started[k])
            &&& k == started.len() ==> (moments[i].action matches UpAction::Done(Ok(n)) && n > 0)
            &&& crate::session_table::names_of(started) == crate::session_table::carried(
                known[armed + 1].sessions,
                known[armed + 1].order,
            )
        }),
    decreases i,
{
    if i > armed + 1 {
        runs_through_its_pumps(known, moments, events, armed, i - 1);
        assert(events[i - 1] is Started);
    }
    assert(up_moves(known, moments, events, i - 1));
    assert(moments[i - 1].run.established.len() <= usize::MAX);
}

/// What is listed of the sessions that a tunnel carries is exactly those: each name of the
/// order whose session has a tunnel, and no other.
pub proof fn what_carries_is_listed(
    sessions: Map<Seq<u8>, SessionModel>,
    order: Seq<Seq<u8>>,
    name: Seq<u8>,
)
    ensures
        crate::session_table::carried(sessions, order).contains(name) <==> order.contains(name)
            && sessions.contains_key(name) && sessions[name].established is Some,
    decreases order.len(),
{
    let all = crate::session_table::carried(sessions, order);
    if order.len() > 0 {
        let front = order.drop_last();
        let some = crate::session_table::carried(sessions, front);
        what_carries_is_listed(sessions, front, name);
        if order.contains(name) {
            let i = choose|i: int| 0 <= i < order.len() && order[i] == name;
            if i < front.len() {
                assert(front[i] == name);
            }
        }
        if front.contains(name) {
            let i = choose|i: int| 0 <= i < front.len() && front[i] == name;
            assert(order[i] == name);
        }
        assert(order[order.len() - 1] == order.last());
        if some.contains(name) {
            let i = choose|i: int| 0 <= i < some.len() && some[i] == name;
            assert(all[i] == name);
        }
        if all.contains(name) {
            let i = choose|i: int| 0 <= i < all.len() && all[i] == name;
            if i < some.len() {
                assert(some[i] == name);
            }
        }
        if sessions.contains_key(order.last()) && sessions[order.last()].established is Some {
            assert(all[all.len() - 1] == order.last());
        }
    }
}

/// One moment of a walk over the sessions: the core, the walk and what it asks for.
pub struct WalkMoment {
    /// The core.
    pub m: CoreModel,
    /// The walk.
    pub walk: Sweep,
    /// What it asks for.
    pub action: SweepAction,
}

/// The `i`-th answer of a walk is followed by its next moment.
pub open spec fn walk_moves(moments: Seq<WalkMoment>, answers: Seq<Applied>, i: int) -> bool {
    &&& moments[i].action is Apply
    &&& (moments[i + 1].m, moments[i + 1].walk, moments[i + 1].action) == sweep_next(
        moments[i].m,
        moments[i].walk,
        answers[i],
    )
}

/// A walk that begins in `start`, over all the sessions that are known there.
pub open spec fn is_walk(
    start: CoreModel,
    begun: Sweep,
    moments: Seq<WalkMoment>,
    answers: Seq<Applied>,
) -> bool {
    &&& start.named()
    &&& begun.at == 0
    &&& begun.ids@.len() <= usize::MAX
    &&& lists_names(start.sessions, begun.ids@)
    &&& moments.len() == answers.len() + 1
    &&& (moments[0].m, moments[0].walk, moments[0].action) == sweep_on(start, begun, 0)
    &&& forall|i: int| 0 <= i < answers.len() ==> #[trigger] walk_moves(moments, answers, i)
}

proof fn a_known_session_is_next(sessions: Map<Seq<u8>, SessionModel>, ids: Seq<SessionId>, at: int)
    requires
        0 <= at <= ids.len(),
        at < ids.len() ==> sessions.contains_key(ids[at].bytes@),
    ensures
        next_known(sessions, ids, at) == at,
{
}

proof fn a_walk_keeps_on(
    start: CoreModel,
    begun: Sweep,
    moments: Seq<WalkMoment>,
    answers: Seq<Applied>,
    i: int,
)
    requires
        is_walk(start, begun, moments, answers),
        0 <= i < moments.len(),
    ensures
        ({
            let now = moments[i];
            &&& i <= begun.ids@.len()
            &&& now.m.named()
            &&& now.m.sessions.dom() == start.sessions.dom()
            &&& now.walk.ids@ == begun.ids@
            &&& now.walk.at == i
            &&& now.walk.event == begun.event
            &&& now.walk.close == begun.close
            &&& now.walk.actor == begun.actor
            &&& i < begun.ids@.len() ==> now.action == (SweepAction::Apply {
                session_id: begun.ids@[i],
                event: begun.event,
                stop: begun.close,
            })
            &&& i == begun.ids@.len() ==> now.action is Done
            &&& !begun.close ==> forall|k: Seq<u8>| #[trigger]
                start.sessions.contains_key(k) ==> now.m.sessions[k].established
                    == start.sessions[k].established
            &&& begun.close ==> forall|j: int|
                0 <= j <= i && j < begun.ids@.len() ==> now.m.sessions[(
                #[trigger] begun.ids@[j]).bytes@].established is None
            &&& begun.close ==> forall|j: int|
                0 <= j < i && answers[j].record is Some ==> !now.m.journal.contains_key(
                    (#[trigger] begun.ids@[j]).bytes@,
                )
            &&& !begun.close ==> now.m.journal == start.journal && now.m.planes == start.planes
            &&& now.m.enforcement == start.enforcement
        }),
    decreases i,
{
    let ids = begun.ids@;
    if i == 0 {
        if ids.len() > 0 {
            assert(start.sessions.contains_key(ids[0].bytes@));
        }
        a_known_session_is_next(start.sessions, ids, 0);
        assert(moments[0].m.sessions.dom() =~= start.sessions.dom());
    } else {
        a_walk_keeps_on(start, begun, moments, answers, i - 1);
        assert(walk_moves(moments, answers, i - 1));
        let before = moments[i - 1];
        let answer = answers[i - 1];
        let id = ids[i - 1];
        assert(start.sessions.contains_key(id.bytes@));
        let told = if begun.close {
            closed_with(before.m, id, answer, begun.actor)
        } else {
            before.m.applied(id, answer, begun.actor)
        };
        assert(told.sessions.dom() =~= before.m.sessions.dom());
        assert(told.named());
        if i < ids.len() {
            assert(start.sessions.contains_key(ids[i].bytes@));
            assert(told.sessions.contains_key(ids[i].bytes@));
        }
        a_known_session_is_next(told.sessions, ids, i);
        assert(moments[i].m.sessions.dom() =~= start.sessions.dom());
    }
}

/// A walk tells every session that was known when it began, once, in ascending order and
/// whatever the earlier ones answered, of the same event; it is over right after the last
/// one. A walk that does not close leaves every tunnel, every record and what is queued as
/// they are. A walk that closes has the session's directions stopped and its tunnel gone
/// before its machine is told, and once that moved its record is gone too.
pub proof fn a_walk_tells_every_session(
    start: CoreModel,
    begun: Sweep,
    moments: Seq<WalkMoment>,
    answers: Seq<Applied>,
    i: int,
)
    requires
        is_walk(start, begun, moments, answers),
        0 <= i < moments.len(),
    ensures
        ({
            let n = begun.ids@.len();
            let now = moments[i];
            &&& i <= n
            &&& now.action is Done <==> i == n
            &&& i < n ==> now.action == (SweepAction::Apply {
                session_id: begun.ids@[i],
                event: begun.event,
                stop: begun.close,
            })
            &&& !begun.close ==> {
                &&& now.m.journal == start.journal
                &&& now.m.planes == start.planes
                &&& forall|k: Seq<u8>| #[trigger]
                    start.sessions.contains_key(k) ==> now.m.sessions.contains_key(k)
                        && now.m.sessions[k].established == start.sessions[k].established
            }
            &&& begun.close && i < n ==> now.m.sessions[begun.ids@[i].bytes@].established is None
            &&& begun.close && i == n ==> forall|k: Seq<u8>| #[trigger]
                start.sessions.contains_key(k) ==> now.m.sessions.contains_key(k)
                    && now.m.sessions[k].established is None
            &&& begun.close ==> forall|j: int|
                0 <= j < i && answers[j].record is Some ==> !now.m.journal.contains_key(
                    (#[trigger] begun.ids@[j]).bytes@,
                )
        }),
        forall|k: Seq<u8>| #[trigger]
            start.sessions.contains_key(k) ==> exists|j: int|
                0 <= j < begun.ids@.len() && (#[trigger] begun.ids@[j]).bytes@ == k,
        forall|a: int, b: int|
            0 <= a < b < begun.ids@.len() ==> (#[trigger] begun.ids@[a]).bytes@ != (
            #[trigger] begun.ids@[b]).bytes@,
{
    a_walk_keeps_on(start, begun, moments, answers, i);
    let ids = begun.ids@;
    let names = crate::session_table::names_of(ids);
    let now = moments[i];
    assert forall|a: int, b: int| 0 <= a < b < ids.len() implies (#[trigger] ids[a]).bytes@ != (
    #[trigger] ids[b]).bytes@ by {
        assert(names[a] == ids[a].bytes@ && names[b] == ids[b].bytes@);
        crate::octets::before_irreflexive(names[a]);
    }
    assert forall|k: Seq<u8>| #[trigger] start.sessions.contains_key(k) implies
        now.m.sessions.contains_key(k) by {
        assert(now.m.sessions.dom().contains(k));
    }
    if begun.close && i == ids.len() {
        assert forall|k: Seq<u8>| #[trigger] start.sessions.contains_key(k) implies
            now.m.sessions[k].established is None by {
            let j = choose|j: int| 0 <= j < ids.len() && (#[trigger] ids[j]).bytes@ == k;
            assert(now.m.sessions[ids[j].bytes@].established is None);
        }
    }
}

/// A walk keeps what each machine answered: the session it was told then stands there, the
/// transition is on record, and a session that was closed and moved has its durable record
/// removed, and that removal queued.
pub proof fn an_answer_is_kept(m: CoreModel, walk: Sweep, answer: Applied)
    requires
        m.named(),
        walk.at < walk.ids@.len(),
        walk.effects < u32::MAX - 2,
        m.sessions.contains_key(walk.ids@[walk.at as int].bytes@),
        forall|j: int|
            walk.at < j < walk.ids@.len() ==> (#[trigger] walk.ids@[j]).bytes@ != walk.ids@[
            walk.at as int].bytes@,
    ensures
        ({
            let name = walk.ids@[walk.at as int].bytes@;
            let (after, next, _) = sweep_next(m, walk, answer);
            &&& after.sessions[name].machine == answer.report
            &&& answer.record is Some ==> after.ledger.len() == m.ledger.len() + 1
                && after.ledger.last() == crate::instance::LedgerRecord::Transition(
                answer.record->0,
            )
            &&& answer.record is None ==> after.ledger == m.ledger
            &&& next.effects == walk.effects + (if answer.record is None {
                0int
            } else if walk.close {
                2
            } else {
                1
            })
            &&& walk.close && answer.record is Some ==> after.planes.pending
                == m.planes.pending.push(
                WriteModel::Session { key: hex_text(name), value: None },
            )
            &&& !walk.close || answer.record is None ==> after.planes.pending == m.planes.pending
        }),
{
    let id = walk.ids@[walk.at as int];
    let told = if walk.close {
        closed_with(m, id, answer, walk.actor)
    } else {
        m.applied(id, answer, walk.actor)
    };
    the_next_is_another(told.sessions, walk.ids@, walk.at + 1);
    let at = next_known(told.sessions, walk.ids@, walk.at + 1);
    assert(told.named());
    if at < walk.ids@.len() {
        assert(one_torn_down(told, walk.ids@[at]).sessions[id.bytes@] == told.sessions[id.bytes@]);
    }
}

proof fn the_next_is_another(sessions: Map<Seq<u8>, SessionModel>, ids: Seq<SessionId>, at: int)
    requires
        0 <= at,
    ensures
        at < ids.len() ==> at <= next_known(sessions, ids, at) <= ids.len(),
        next_known(sessions, ids, at) < ids.len() ==> sessions.contains_key(
            ids[next_known(sessions, ids, at)].bytes@,
        ),
    decreases ids.len() - at,
{
    if at < ids.len() && !sessions.contains_key(ids[at].bytes@) {
        the_next_is_another(sessions, ids, at + 1);
    }
}

/// Taking the network down tells each session what the walk that closes them tells it; once
/// that is over everything that a tunnel still carries is stopped, by name, and carries no
/// more; and then the tunnel is taken down, from its first step to its last, whatever each
/// is answered.
pub proof fn taking_the_network_down_goes_through(
    m: CoreModel,
    stage: DownStage,
    event: DownEvent,
    after: CoreModel,
    next: DownStage,
    action: DownAction,
)
    requires
        m.named(),
        down_fits(stage, event),
        goes_down(m, stage, event, after, next, action),
    ensures
        stage matches DownStage::Closing(walk) ==> (event matches DownEvent::Applied(answer) && {
            let (walked, on, told) = sweep_next(m, walk, answer);
            &&& told matches SweepAction::Apply { session_id, event: e, .. } ==> action == (
            DownAction::Apply { session_id, event: e }) && next == DownStage::Closing(on) && after
                == walked
            &&& told is Done ==> {
                &&& action matches DownAction::Stop(stopped) && (forall|k: Seq<u8>| #[trigger]
                    walked.sessions.contains_key(k) && walked.sessions[k].established is Some
                        ==> exists|j: int|
                        0 <= j < stopped@.len() && (#[trigger] stopped@[j]).bytes@ == k)
                &&& forall|k: Seq<u8>| #[trigger]
                    after.sessions.contains_key(k) ==> after.sessions[k].established is None
                &&& next is Stopping
            }
        }),
        stage is Stopping ==> action == DownAction::Tear(teardown_first(m.enforcement).2)
            && after.enforcement == teardown_first(m.enforcement).0 && (next matches
            DownStage::TearingDown { stage: s, .. } && s == teardown_first(m.enforcement).1),
        stage matches DownStage::TearingDown { stage: s, effects } ==> (event matches
            DownEvent::Did(did) && {
            let (e, t, publish, act) = teardown_next(m.enforcement, s, did);
            &&& after.enforcement == e
            &&& act == TeardownAction::Done ==> action is Done
            &&& act == TeardownAction::Done && effects < u32::MAX ==> action == DownAction::Done(
                (effects + 1) as u32,
            )
            &&& act != TeardownAction::Done ==> action == DownAction::Tear(act) && (next matches
                DownStage::TearingDown { stage: u, .. } && u == t)
            &&& publish is Some ==> after.ledger.len() == m.ledger.len() + 1 && after.ledger.last()
                == crate::instance::LedgerRecord::Diagnostic(publish->0)
            &&& publish is None ==> after.ledger == m.ledger
        }),
{
    if let DownStage::Closing(walk) = stage {
        if let DownEvent::Applied(answer) = event {
            let (walked, on, told) = sweep_next(m, walk, answer);
            if let DownAction::Stop(stopped) = action {
                if told is Done {
                    assert forall|k: Seq<u8>| #[trigger]
                        walked.sessions.contains_key(k) && walked.sessions[k].established is Some implies
                        exists|j: int|
                        0 <= j < stopped@.len() && (#[trigger] stopped@[j]).bytes@ == k by {
                        assert(crate::session_table::carries(walked.sessions, k));
                    }
                }
            }
        }
    }
}

/// Taking the network down begins with a walk over every session that is known, which closes
/// each because its user asked for that.
pub proof fn taking_the_network_down_closes_every_session(
    m: CoreModel,
    actor: Option<String>,
    after: CoreModel,
    next: DownStage,
    action: DownAction,
)
    requires
        down_first(m, actor, after, next, action),
    ensures
        (forall|k: Seq<u8>| !#[trigger] m.sessions.contains_key(k)) ==> action is Stop,
        (exists|k: Seq<u8>| #[trigger] m.sessions.contains_key(k)) ==> {
            &&& next matches DownStage::Closing(walk) && lists_names(m.sessions, walk.ids@)
                && walk.at == 0 && walk.close && walk.event
                == crate::session::Event::DisconnectRequested && walk.actor == actor
                && walk.effects == 0
            &&& action matches DownAction::Apply { session_id, event } && event
                == crate::session::Event::DisconnectRequested && m.sessions.contains_key(
                session_id.bytes@,
            )
        },
        after.enforcement == m.enforcement,
        after.journal == m.journal,
{
    let ids = choose|ids: Vec<SessionId>| #[trigger]
        lists_names(m.sessions, ids@) && crate::execute::sweep::closes_on(
            sweep_on(m, crate::execute::sweep::closing(ids, actor), 0),
            after,
            next,
            action,
        );
    if ids@.len() > 0 {
        assert(m.sessions.contains_key(ids@[0].bytes@));
    }
    a_known_session_is_next(m.sessions, ids@, 0);
    if exists|k: Seq<u8>| #[trigger] m.sessions.contains_key(k) {
        let k = choose|k: Seq<u8>| #[trigger] m.sessions.contains_key(k);
        let j = choose|j: int| 0 <= j < ids@.len() && (#[trigger] ids@[j]).bytes@ == k;
        assert(ids@.len() > 0);
        assert(ids.len() <= usize::MAX);
    }
}

} // verus!
