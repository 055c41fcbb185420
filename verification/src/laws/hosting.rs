//! What the host reports, and what the sessions make of it.

use vstd::prelude::*;

use crate::dispatch::Lifecycle;
use crate::establish::InterfaceFacts;
use crate::events::TransitionRecord;
use crate::execute::sweep::{link_told, network_taken, next_known, one_closed, phase_taken, Sweep,
    SweepAction};
use crate::instance::{CoreModel, LedgerRecord};
use crate::reason::{Diagnostic, ReasonCode};
use crate::session::Event;
use crate::session_table::{lists_carrying, lists_names};
use crate::types::SessionId;
use crate::upkeep::{all_transitioned, tick_first, tick_fits, ticks, Tick, TickAction, TickEvent,
    TickStage};

verus! {

/// An interface that is up and that the core did not make is a link, wherever it stands in
/// the list and whatever else is listed.
pub proof fn a_link_that_is_up_is_told(facts: Seq<InterfaceFacts>, i: int)
    requires
        0 <= i < facts.len(),
        facts[i].is_up,
        !facts[i].is_overlay,
    ensures
        link_told(facts) == Event::LinkUp,
{
}

/// Where every interface that is up is one that the core made, the link is down.
pub proof fn the_overlay_is_no_link(facts: Seq<InterfaceFacts>)
    requires
        forall|i: int| 0 <= i < facts.len() && (#[trigger] facts[i]).is_up ==> facts[i].is_overlay,
    ensures
        link_told(facts) == Event::LinkDown,
{
}

/// An interface that the core made says nothing of the link: with it or without it, and
/// wherever it stands, the sessions are told the same.
pub proof fn the_overlay_changes_nothing(
    before: Seq<InterfaceFacts>,
    overlay: InterfaceFacts,
    behind: Seq<InterfaceFacts>,
)
    requires
        overlay.is_overlay,
    ensures
        link_told(before + seq![overlay] + behind) == link_told(before + behind),
{
    let with = before + seq![overlay] + behind;
    let without = before + behind;
    let n = before.len() as int;
    if exists|i: int| 0 <= i < without.len() && (#[trigger] without[i]).is_up
        && !without[i].is_overlay {
        let i = choose|i: int|
            0 <= i < without.len() && (#[trigger] without[i]).is_up && !without[i].is_overlay;
        let j = if i < n { i } else { i + 1 };
        assert(with[j] == without[i]);
        a_link_that_is_up_is_told(without, i);
        a_link_that_is_up_is_told(with, j);
    } else {
        assert forall|j: int| 0 <= j < with.len() && (#[trigger] with[j]).is_up implies
            with[j].is_overlay by {
            if j < n {
                assert(with[j] == without[j]);
            } else if j > n {
                assert(with[j] == without[j - 1]);
            }
        }
        the_overlay_is_no_link(without);
        the_overlay_is_no_link(with);
    }
}

/// A walk over every session begins: with the first that is known, if one is.
pub open spec fn walk_begins(
    m: CoreModel,
    walk: Sweep,
    action: SweepAction,
    event: Event,
    actor: Option<String>,
) -> bool {
    &&& lists_names(m.sessions, walk.ids@)
    &&& walk.event == event
    &&& !walk.close
    &&& walk.actor == actor
    &&& walk.effects == 1
    &&& walk.ids@.len() > 0 ==> action == (SweepAction::Apply {
        session_id: walk.ids@[0],
        event,
        stop: false,
    }) && walk.at == 0
    &&& walk.ids@.len() == 0 ==> action == SweepAction::Done(1)
}

proof fn the_first_is_known(m: CoreModel, walk: Sweep)
    requires
        lists_names(m.sessions, walk.ids@),
    ensures
        next_known(m.sessions, walk.ids@, 0) == 0,
{
    if walk.ids@.len() > 0 {
        assert(m.sessions.contains_key(walk.ids@[0].bytes@));
    }
}

/// When the network changed every session is told whether a link is up, and nothing else
/// changes; where the interfaces could not be listed nothing is known, and no session is
/// told that a link is gone.
pub proof fn a_network_change_is_told_to_every_session(
    m: CoreModel,
    facts: Option<Vec<InterfaceFacts>>,
    actor: Option<String>,
    after: CoreModel,
    r: Option<(Sweep, SweepAction)>,
)
    requires
        network_taken(m, facts, actor, after, r),
    ensures
        after == m,
        facts is None <==> r is None,
        facts matches Some(list) ==> (r matches Some((walk, action)) && walk_begins(
            m,
            walk,
            action,
            link_told(list@),
            actor,
        )),
{
    if let Some((walk, action)) = r {
        the_first_is_known(m, walk);
    }
}

/// What the host says of its lifecycle, by one octet, is kept and told to every session, as
/// that and as nothing else; an octet that says none of it is refused, and changes nothing.
pub proof fn a_lifecycle_phase_is_kept_and_told(
    m: CoreModel,
    params: Seq<u8>,
    actor: Option<String>,
    after: CoreModel,
    r: Result<(Sweep, SweepAction), Diagnostic>,
)
    requires
        phase_taken(m, params, actor, after, r),
    ensures
        r is Ok <==> params.len() > 0 && 1 <= params[0] <= 4,
        r matches Err(d) ==> after == m && d.code == ReasonCode::ProtoMalformedMessage,
        r matches Ok((walk, action)) ==> {
            &&& after == (CoreModel { lifecycle: after.lifecycle, ..m })
            &&& params[0] == 1 ==> after.lifecycle == Lifecycle::Suspend && walk_begins(
                m,
                walk,
                action,
                Event::Suspend,
                actor,
            )
            &&& params[0] == 2 ==> after.lifecycle == Lifecycle::Resume && walk_begins(
                m,
                walk,
                action,
                Event::Resume,
                actor,
            )
            &&& params[0] == 3 ==> after.lifecycle == Lifecycle::Background && walk_begins(
                m,
                walk,
                action,
                Event::Background,
                actor,
            )
            &&& params[0] == 4 ==> after.lifecycle == Lifecycle::Foreground && walk_begins(
                m,
                walk,
                action,
                Event::Foreground,
                actor,
            )
        },
{
    if let Ok((walk, action)) = r {
        the_first_is_known(m, walk);
    }
}

/// A session that is closed carries no more, and keeps all the rest; a session that is not
/// known closes nothing; and no other session is touched.
pub proof fn closing_touches_one_session(m: CoreModel, id: SessionId, other: Seq<u8>)
    requires
        m.named(),
        other != id.bytes@,
    ensures
        m.sessions.contains_key(id.bytes@) ==> {
            let after = one_closed(m, id).sessions;
            &&& after.contains_key(id.bytes@)
            &&& after[id.bytes@].established is None
            &&& after[id.bytes@].machine == m.sessions[id.bytes@].machine
            &&& after[id.bytes@].keying == m.sessions[id.bytes@].keying
            &&& after[id.bytes@].peer_endpoint == m.sessions[id.bytes@].peer_endpoint
        },
        !m.sessions.contains_key(id.bytes@) ==> one_closed(m, id) == m,
        one_closed(m, id).sessions.contains_key(other) == m.sessions.contains_key(other),
        m.sessions.contains_key(other) ==> one_closed(m, id).sessions[other] == m.sessions[other],
{
}

/// The sessions that a tick walks over are known.
pub open spec fn walks_over(m: CoreModel, ids: Seq<SessionId>) -> bool {
    forall|i: int| 0 <= i < ids.len() ==> m.sessions.contains_key((#[trigger] ids[i]).bytes@)
}

/// A tick begins with the timers of the first session, and walks over all that are known.
pub proof fn a_tick_begins_with_the_first_timers(m: CoreModel, next: Tick, action: TickAction)
    requires
        tick_first(m, next, action),
    ensures
        (exists|k: Seq<u8>| #[trigger] m.sessions.contains_key(k)) ==> {
            &&& next.stage == TickStage::Timing
            &&& next.at == 0
            &&& lists_names(m.sessions, next.ids@)
            &&& next.ids@.len() > 0
            &&& action == TickAction::RunTimers(next.ids@[0])
        },
        (forall|k: Seq<u8>| !#[trigger] m.sessions.contains_key(k)) ==> action
            == (TickAction::Done { transitions: 0, probes: 0 }),
        next.transitions == 0 && next.probes == 0,
{
    let ids = choose|ids: Vec<SessionId>| #[trigger]
        lists_names(m.sessions, ids@) && crate::upkeep::ticks_on(
            m,
            crate::upkeep::new_tick(ids),
            0,
            next,
            action,
        );
    if ids@.len() > 0 {
        assert(m.sessions.contains_key(ids@[0].bytes@));
    }
    assert(next_known(m.sessions, ids@, 0) == 0);
    if exists|k: Seq<u8>| #[trigger] m.sessions.contains_key(k) {
        let k = choose|k: Seq<u8>| #[trigger] m.sessions.contains_key(k);
        let j = choose|j: int| 0 <= j < ids@.len() && (#[trigger] ids@[j]).bytes@ == k;
        assert(ids@.len() > 0);
    } else if next.ids@.len() > 0 {
        assert(crate::session_table::carries(m.sessions, next.ids@[0].bytes@));
        assert(m.sessions.contains_key(next.ids@[0].bytes@));
    }
}

/// The next session's timers come; or, after the last session, the packets of the first
/// session that a tunnel carries, among all that one does; or, where none does, the end.
pub open spec fn goes_on_from(
    m: CoreModel,
    t: Tick,
    next: Tick,
    action: TickAction,
) -> bool {
    if t.at + 1 < t.ids@.len() {
        &&& action == TickAction::RunTimers(t.ids@[t.at + 1])
        &&& next.at == t.at + 1
        &&& next.ids == t.ids
        &&& next.stage == TickStage::Timing
    } else {
        &&& lists_carrying(m.sessions, next.ids@)
        &&& next.at == 0
        &&& next.stage == TickStage::Moving
        &&& next.ids@.len() > 0 ==> action == TickAction::MovePackets(next.ids@[0])
        &&& next.ids@.len() == 0 ==> action == (TickAction::Done {
            transitions: next.transitions,
            probes: next.probes,
        })
    }
}

/// A tick runs every session's timers, one session after the other. What a session's timers
/// did is kept: where its machine stands, and each transition on record, in order. A session
/// whose candidates are raced, which has a socket and whose peer's endpoint is known is
/// probed right after; then the next session comes. After the last one the packets of every
/// session that a tunnel carries are moved, one session after the other; and then the tick
/// is over, with what was told and sent.
pub proof fn a_tick_goes_through_every_session(
    m: CoreModel,
    t: Tick,
    event: TickEvent,
    after: CoreModel,
    next: Tick,
    action: TickAction,
)
    requires
        m.named(),
        tick_fits(t, event),
        ticks(m, t, event, after, next, action),
        t.stage != TickStage::Moving ==> walks_over(m, t.ids@),
        t.ids@.len() <= usize::MAX,
    ensures
        ({
            let id = t.ids@[t.at as int];
            let name = id.bytes@;
            let due = m.sessions[name].raced && m.sessions[name].sockets.len() > 0
                && m.sessions[name].peer_endpoint is Some;
            &&& event matches TickEvent::Timed { records, machine } ==> {
                &&& after.sessions[name].machine == machine
                &&& after.sessions[name].established == m.sessions[name].established
                &&& after.ledger.len() == m.ledger.len() + records@.len()
                &&& t.transitions + records@.len() <= usize::MAX ==> next.transitions
                    == t.transitions + records@.len()
                &&& next.probes == t.probes
                &&& due ==> action == TickAction::Probe(id) && next.at == t.at && next.stage
                    == TickStage::Probing && next.ids == t.ids
                &&& !due ==> goes_on_from(after, t, next, action)
                &&& walks_over(after, t.ids@)
            }
            &&& event matches TickEvent::Probed(sent) ==> {
                &&& after == m
                &&& t.probes + sent <= usize::MAX ==> next.probes == t.probes + sent
                &&& next.transitions == t.transitions
                &&& goes_on_from(after, t, next, action)
            }
            &&& event is Moved ==> {
                &&& after == m
                &&& next.ids == t.ids
                &&& t.at + 1 < t.ids@.len() ==> action == TickAction::MovePackets(t.ids@[t.at + 1])
                    && next.at == t.at + 1
                &&& t.at + 1 == t.ids@.len() ==> action == (TickAction::Done {
                    transitions: t.transitions,
                    probes: t.probes,
                })
            }
        }),
{
    let id = t.ids@[t.at as int];
    if let TickEvent::Timed { records, machine } = event {
        let timed = crate::upkeep::after_timers(m, id, machine);
        assert(m.sessions.contains_key(id.bytes@));
        timers_only_tell(timed, records@);
        assert(timed.sessions.dom() =~= m.sessions.dom());
        assert forall|i: int| 0 <= i < t.ids@.len() implies after.sessions.contains_key(
            (#[trigger] t.ids@[i]).bytes@,
        ) by {
            assert(m.sessions.contains_key(t.ids@[i].bytes@));
        }
    }
    if t.stage != TickStage::Moving && t.at + 1 < t.ids@.len() {
        assert(after.sessions.contains_key(t.ids@[t.at + 1].bytes@));
    }
}

proof fn timers_only_tell(m: CoreModel, records: Seq<TransitionRecord>)
    ensures
        all_transitioned(m, records).sessions == m.sessions,
        all_transitioned(m, records).enforcement == m.enforcement,
        all_transitioned(m, records).ledger.len() == m.ledger.len() + records.len(),
    decreases records.len(),
{
    if records.len() > 0 {
        timers_only_tell(m, records.drop_last());
    }
}

/// Each transition that a session's timers fired is on record, in the order they fired.
pub proof fn every_fired_transition_is_on_record(
    m: CoreModel,
    records: Seq<TransitionRecord>,
    i: int,
)
    requires
        0 <= i < records.len(),
    ensures
        all_transitioned(m, records).ledger.len() == m.ledger.len() + records.len(),
        all_transitioned(m, records).ledger[m.ledger.len() + i] == LedgerRecord::Transition(
            records[i],
        ),
    decreases records.len(),
{
    timers_only_tell(m, records.drop_last());
    if i < records.len() - 1 {
        every_fired_transition_is_on_record(m, records.drop_last(), i);
    }
}

} // verus!
