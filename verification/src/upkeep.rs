//! What is installed in an instance as it becomes known, and what each tick does.

use vstd::prelude::*;

use crate::cp_binding::transport::{observed, ControlTransportBinding, TransportConfig};
use crate::establish::{plans_probes, probe, probe_plan, probed_rows, Candidate};
use crate::events::TransitionRecord;
use crate::instance::{Core, CoreModel};
use crate::pairing::{Offer, OfferModel, PairingCeremonies, PairingEnrolment};
use crate::reason::{Component, Diagnostic, ReasonCode};
use crate::execute::sweep::next_known;
use crate::session_table::{carries, lists_carrying, lists_names, Keying, MachineReport, SessionEntry,
    SessionModel};
use crate::types::{DeviceId, Endpoint, SessionId};

verus! {

/// After each of these transitions was recorded and published, in order.
pub open spec fn all_transitioned(m: CoreModel, records: Seq<TransitionRecord>) -> CoreModel
    decreases records.len(),
{
    if records.len() == 0 {
        m
    } else {
        all_transitioned(m, records.drop_last()).transitioned(records.last(), None)
    }
}

impl CoreModel {
    /// After a peer's key material was installed.
    pub open spec fn key_installed(
        self,
        session_id: SessionId,
        peer: DeviceId,
        keying: Keying,
    ) -> CoreModel {
        self.with_session(
            SessionModel { keying: Some(keying), ..self.session_or_new(session_id, peer) },
        )
    }

    /// After credentials for a relay were installed.
    pub open spec fn relay_granted(self, session_id: SessionId, peer: DeviceId) -> CoreModel {
        self.with_session(
            SessionModel { relay_access: true, ..self.session_or_new(session_id, peer) },
        )
    }

    /// After it was kept where a peer is reachable.
    pub open spec fn endpoint_set(
        self,
        session_id: SessionId,
        peer: DeviceId,
        endpoint: Endpoint,
    ) -> CoreModel {
        self.with_session(
            SessionModel {
                peer_endpoint: Some(endpoint),
                ..self.session_or_new(session_id, peer)
            },
        )
    }
}

/// A session after its machine ran its timers.
pub open spec fn after_timers(m: CoreModel, session_id: SessionId, machine: MachineReport) -> CoreModel {
    if m.sessions.contains_key(session_id.bytes@) {
        m.with_session(SessionModel { machine, ..m.sessions[session_id.bytes@] })
    } else {
        m
    }
}

/// A session whose candidates are raced is probed when it has a socket to send from and
/// an endpoint to send to.
pub open spec fn probed(m: CoreModel, session_id: SessionId) -> bool {
    &&& m.sessions.contains_key(session_id.bytes@)
    &&& m.sessions[session_id.bytes@].raced
    &&& m.sessions[session_id.bytes@].sockets.len() > 0
    &&& m.sessions[session_id.bytes@].peer_endpoint is Some
}

/// What a tick waits for.
#[derive(Debug, Clone, Copy, PartialEq, Eq, Structural)]
pub enum TickStage {
    /// A session's timers.
    Timing,
    /// A session's probes.
    Probing,
    /// A session's packets.
    Moving,
}

/// A tick under way.
#[derive(Debug)]
pub struct Tick {
    /// The sessions it walks over.
    pub ids: Vec<SessionId>,
    /// Which one it is at.
    pub at: usize,
    /// How many transitions were told.
    pub transitions: usize,
    /// How many probes went out.
    pub probes: usize,
    /// What it waits for.
    pub stage: TickStage,
}

/// What came back to a tick.
#[derive(Debug)]
pub enum TickEvent {
    /// What a session's timers did.
    Timed {
        /// The transitions they fired, oldest first.
        records: Vec<TransitionRecord>,
        /// Where its machine now stands.
        machine: MachineReport,
    },
    /// How many of a session's probes went out.
    Probed(usize),
    /// A session's packets were moved.
    Moved,
}

/// What a tick does next.
#[derive(Debug, Clone, Copy)]
pub enum TickAction {
    /// Run this session's timers.
    RunTimers(SessionId),
    /// Send the probes of this session that are due.
    Probe(SessionId),
    /// Move what waits on this session.
    MovePackets(SessionId),
    /// Nothing more.
    Done {
        /// How many transitions were told.
        transitions: usize,
        /// How many probes went out.
        probes: usize,
    },
}

/// The event answers what the tick waits for.
pub open spec fn tick_fits(t: Tick, event: TickEvent) -> bool {
    &&& t.at < t.ids@.len()
    &&& match t.stage {
        TickStage::Timing => event is Timed,
        TickStage::Probing => event is Probed,
        TickStage::Moving => event is Moved,
    }
}

/// A count, up to the largest number there is.
pub open spec fn counted(n: int) -> usize {
    if n > usize::MAX {
        usize::MAX
    } else {
        n as usize
    }
}

/// The next session whose packets are moved; or the end.
pub open spec fn moves_next(t: Tick) -> TickAction {
    if t.at < t.ids@.len() {
        TickAction::MovePackets(t.ids@[t.at as int])
    } else {
        TickAction::Done { transitions: t.transitions, probes: t.probes }
    }
}

fn move_next(t: Tick) -> (r: (Tick, TickAction))
    ensures
        r == (t, moves_next(t)),
{
    if t.at < t.ids.len() {
        let id = t.ids[t.at];
        (t, TickAction::MovePackets(id))
    } else {
        let transitions: usize = t.transitions;
        let probes: usize = t.probes;
        (t, TickAction::Done { transitions, probes })
    }
}

/// The tick goes on to the timers of the next session that is still known; and after the
/// last one to the packets of every session that a tunnel carries.
pub open spec fn ticks_on(m: CoreModel, t: Tick, from: int, next: Tick, action: TickAction) -> bool {
    let at = next_known(m.sessions, t.ids@, from);
    if at < t.ids@.len() {
        &&& next == (Tick { at: at as usize, stage: TickStage::Timing, ..t })
        &&& action == TickAction::RunTimers(t.ids@[at])
    } else {
        &&& lists_carrying(m.sessions, next.ids@)
        &&& next == (Tick { ids: next.ids, at: 0, stage: TickStage::Moving, ..t })
        &&& action == moves_next(next)
    }
}

/// A tick over these sessions, that nothing was done for yet.
pub open spec fn new_tick(ids: Vec<SessionId>) -> Tick {
    Tick { ids, at: 0, transitions: 0, probes: 0, stage: TickStage::Timing }
}

/// How a tick begins: with the timers of every session that is known.
pub open spec fn tick_first(m: CoreModel, next: Tick, action: TickAction) -> bool {
    exists|ids: Vec<SessionId>| #[trigger]
        lists_names(m.sessions, ids@) && ticks_on(m, new_tick(ids), 0, next, action)
}

/// One step of a tick.
pub open spec fn ticks(
    m: CoreModel,
    t: Tick,
    event: TickEvent,
    after: CoreModel,
    next: Tick,
    action: TickAction,
) -> bool {
    let session_id = t.ids@[t.at as int];
    match event {
        TickEvent::Timed { records, machine } => {
            let told = Tick { transitions: counted(t.transitions + records@.len()), ..t };
            &&& after == all_transitioned(after_timers(m, session_id, machine), records@)
            &&& if probed(after, session_id) {
                next == (Tick { stage: TickStage::Probing, ..told }) && action
                    == TickAction::Probe(session_id)
            } else {
                ticks_on(after, told, t.at + 1, next, action)
            }
        },
        TickEvent::Probed(sent) => {
            &&& after == m
            &&& ticks_on(m, (Tick { probes: counted(t.probes + sent), ..t }), t.at + 1, next, action)
        },
        TickEvent::Moved => {
            &&& after == m
            &&& next == (Tick { at: (t.at + 1) as usize, ..t })
            &&& action == moves_next(next)
        },
    }
}

/// In a tick packets are moved last, and only on sessions that a tunnel carries; a
/// session is probed only directly after its own timers; and once packets are moved no
/// timer and no probe comes any more.
pub proof fn a_tick_moves_packets_last(
    m: CoreModel,
    t: Tick,
    event: TickEvent,
    after: CoreModel,
    next: Tick,
    action: TickAction,
)
    requires
        tick_fits(t, event),
        ticks(m, t, event, after, next, action),
    ensures
        action matches TickAction::Probe(id) ==> t.stage == TickStage::Timing && id
            == t.ids@[t.at as int] && probed(after, id),
        action is MovePackets ==> next.stage == TickStage::Moving,
        t.stage == TickStage::Moving ==> next.stage == TickStage::Moving && !(action is RunTimers)
            && !(action is Probe),
        t.stage != TickStage::Moving ==> (action matches TickAction::MovePackets(id) ==> carries(
            after.sessions,
            id.bytes@,
        )),
{
    if t.stage != TickStage::Moving && action is MovePackets {
        assert(carries(after.sessions, next.ids@[0].bytes@));
    }
}

/// This is what `f` returns when it is lent an offer.
pub open spec fn lent_to<R, F: FnOnce(&Offer) -> R>(f: F, offer: OfferModel, r: R) -> bool {
    exists|o: &Offer| o@ == offer && #[trigger] f.ensures((o,), r)
}

impl CoreModel {
    /// After a control transport was bound.
    pub open spec fn control_bound(self, binding: ControlTransportBinding) -> CoreModel {
        CoreModel { control: Some(binding), ..self }
    }
}

/// What a control channel is attached with, or why it cannot be.
pub open spec fn attaches(
    m: CoreModel,
    mobile_background: bool,
    r: Result<TransportConfig, Diagnostic>,
) -> bool {
    match m.control {
        None => r == Err::<TransportConfig, Diagnostic>(observed(ReasonCode::ControlUnreachable)),
        Some(binding) => {
            &&& r matches Ok(config)
            &&& config.coordination_endpoints@ == binding.names@
            &&& config.families == binding.families
            &&& config.rung == crate::cp_binding::transport::Rung::Quic
            &&& config.mobile_background == mobile_background
        },
    }
}

impl Core {
    /// The session of a name, taken out to be changed; one at rest where there is none.
    fn take_or_new(&mut self, session_id: SessionId, peer: DeviceId) -> (entry: SessionEntry)
        requires
            old(self).wf(),
        ensures
            final(self).wf(),
            entry@ == old(self)@.session_or_new(session_id, peer),
            entry.session_id == session_id,
            final(self)@ == (CoreModel {
                sessions: old(self)@.sessions.remove(session_id.bytes@),
                ..old(self)@
            }),
    {
        match self.sessions.take(session_id) {
            Some(entry) => entry,
            None => SessionEntry::new(session_id, peer),
        }
    }

    /// Installs a peer's key material. It may come before anybody asks to connect, so
    /// the session is created where there is none.
    pub fn install_tunnel_keying(&mut self, session_id: SessionId, peer: DeviceId, keying: Keying)
        requires
            old(self).wf(),
        ensures
            final(self).wf(),
            final(self)@ == old(self)@.key_installed(session_id, peer, keying),
    {
        let mut entry = self.take_or_new(session_id, peer);
        entry.keying = Some(keying);
        self.sessions.put(entry);
        assert(self@ =~= old(self)@.with_session(
            SessionModel { keying: Some(keying), ..old(self)@.session_or_new(session_id, peer) },
        ));
    }

    /// Installs that there are credentials for a relay.
    pub fn install_relay_access(&mut self, session_id: SessionId, peer: DeviceId)
        requires
            old(self).wf(),
        ensures
            final(self).wf(),
            final(self)@ == old(self)@.relay_granted(session_id, peer),
    {
        let mut entry = self.take_or_new(session_id, peer);
        entry.relay_access = true;
        self.sessions.put(entry);
        assert(self@ =~= old(self)@.with_session(
            SessionModel { relay_access: true, ..old(self)@.session_or_new(session_id, peer) },
        ));
    }

    /// Keeps where a peer is reachable. That may be learnt before anybody asks to
    /// connect.
    pub fn set_peer_endpoint(&mut self, session_id: SessionId, peer: DeviceId, endpoint: Endpoint)
        requires
            old(self).wf(),
        ensures
            final(self).wf(),
            final(self)@ == old(self)@.endpoint_set(session_id, peer, endpoint),
    {
        let mut entry = self.take_or_new(session_id, peer);
        entry.peer_endpoint = Some(endpoint);
        self.sessions.put(entry);
        assert(self@ =~= old(self)@.with_session(
            SessionModel {
                peer_endpoint: Some(endpoint),
                ..old(self)@.session_or_new(session_id, peer)
            },
        ));
    }

    /// Installs the enrolment record, so that a pairing may begin.
    pub fn install_pairing_enrolment(&mut self, enrolment: PairingEnrolment)
        requires
            old(self).wf(),
        ensures
            final(self).wf(),
            final(self)@ == (CoreModel {
                pairing: PairingCeremonies { enrolment: Some(enrolment), ..old(self).pairing },
                ..old(self)@
            }),
    {
        self.pairing.install(enrolment);
    }

    /// Lends an offer that is in flight to `f`, for as long as `f` runs: it leaves the
    /// core in no other way. `None` where no such ceremony is in flight.
    pub fn with_pairing_offer<R, F: FnOnce(&Offer) -> R>(&self, pairing_id: &[u8; 16], f: F) -> (r:
        Option<R>)
        requires
            self.wf(),
            forall|offer: &Offer| f.requires((offer,)),
        ensures
            match r {
                Some(r) => {
                    &&& self.pairing@.offers.contains_key(pairing_id@)
                    &&& lent_to(f, self.pairing@.offers[pairing_id@], r)
                },
                None => !self.pairing@.offers.contains_key(pairing_id@),
            },
    {
        match self.pairing.offer(pairing_id) {
            None => None,
            Some(offer) => {
                let r = f(offer);
                assert(lent_to(f, offer@, r));
                Some(r)
            },
        }
    }

    /// Binds the control transport, in place of the one that was bound.
    pub fn bind_control_transport(&mut self, binding: ControlTransportBinding)
        requires
            old(self).wf(),
        ensures
            final(self).wf(),
            final(self)@ == old(self)@.control_bound(binding),
    {
        self.control = Some(binding);
    }

    /// Whether a control transport is bound.
    #[must_use]
    pub fn has_control_transport(&self) -> (b: bool)
        ensures
            b == (self.control is Some),
    {
        self.control.is_some()
    }

    /// What a control channel is attached with. Without a transport there is no control
    /// plane to reach.
    pub fn attach_control(&self, mobile_background: bool) -> (r: Result<TransportConfig, Diagnostic>)
        ensures
            attaches(self@, mobile_background, r),
    {
        match &self.control {
            None => Err(
                Diagnostic::new(ReasonCode::ControlUnreachable, Component::ControlPlaneClient),
            ),
            Some(binding) => Ok(binding.attach_config(mobile_background)),
        }
    }

    /// Whom to probe on a session, from which of its sockets, and where to: of the
    /// candidates that are due, those that its peer can answer.
    #[must_use]
    pub fn probes_due(&self, session_id: SessionId, due: &Vec<Candidate>) -> (plan: Option<
        (usize, Vec<Candidate>, Endpoint),
    >)
        requires
            self.wf(),
        ensures
            if self@.sessions.contains_key(session_id.bytes@) {
                let session = self@.sessions[session_id.bytes@];
                match plan {
                    Some((at, probes, to)) => session.peer_endpoint == Some(to) && plans_probes(
                        session.sockets,
                        due@,
                        Some(to),
                        Some((at, probes)),
                    ),
                    None => plans_probes(session.sockets, due@, session.peer_endpoint, None),
                }
            } else {
                plan is None
            },
    {
        match self.sessions.get(session_id) {
            None => None,
            Some(entry) => match entry.peer_endpoint {
                None => None,
                Some(to) => match probe_plan(&entry.sockets, due, Some(to)) {
                    Some((at, probes)) => Some((at, probes, to)),
                    None => None,
                },
            },
        }
    }

    /// Takes whether one probe of a session left the host: 1 if it did.
    pub fn probe_sent(&mut self, session_id: SessionId, id: [u8; 8], sent: bool) -> (n: usize)
        requires
            old(self).wf(),
        ensures
            final(self).wf(),
            final(self)@ == (if old(self)@.sessions.contains_key(session_id.bytes@) {
                let session = old(self)@.sessions[session_id.bytes@];
                old(self)@.with_session(
                    SessionModel { rows: probed_rows(session.rows, id, sent), ..session },
                )
            } else {
                old(self)@
            }),
            n == (if old(self)@.sessions.contains_key(session_id.bytes@) && sent {
                1usize
            } else {
                0usize
            }),
    {
        match self.sessions.take(session_id) {
            None => {
                assert(self@ =~= old(self)@);
                0
            },
            Some(entry) => {
                let mut entry = entry;
                let n: usize = probe(&mut entry.rows, id, sent);
                let ghost session = old(self)@.sessions[session_id.bytes@];
                self.sessions.put(entry);
                assert(self@ =~= old(self)@.with_session(
                    SessionModel { rows: probed_rows(session.rows, id, sent), ..session },
                ));
                n
            },
        }
    }

    /// Begins a tick: the timers of every session first.
    #[must_use]
    pub fn tick(&self) -> (r: (Tick, TickAction))
        requires
            self.wf(),
        ensures
            tick_first(self@, r.0, r.1),
    {
        let ids = self.sessions.ids();
        let ghost listed = ids;
        assert(lists_names(self@.sessions, listed@));
        self.tick_on(
            Tick { ids, at: 0, transitions: 0, probes: 0, stage: TickStage::Timing },
            0,
        )
    }

    fn tick_on(&self, t: Tick, from: usize) -> (r: (Tick, TickAction))
        requires
            self.wf(),
            from <= t.ids@.len(),
        ensures
            ticks_on(self@, t, from as int, r.0, r.1),
    {
        let mut at: usize = from;
        while at < t.ids.len()
            invariant
                from <= at <= t.ids@.len(),
                self.wf(),
                next_known(self@.sessions, t.ids@, from as int) == next_known(
                    self@.sessions,
                    t.ids@,
                    at as int,
                ),
            decreases t.ids@.len() - at,
        {
            let id = t.ids[at];
            if self.sessions.contains(id) {
                return (Tick { at, stage: TickStage::Timing, ..t }, TickAction::RunTimers(id));
            }
            at += 1;
        }
        let ids = self.sessions.carrying();
        move_next(
            Tick {
                ids,
                at: 0,
                transitions: t.transitions,
                probes: t.probes,
                stage: TickStage::Moving,
            },
        )
    }

    /// Takes what came back, and says what to do next. A session's timers come before its
    /// probes, because they change what a probe means; and every timer and every probe
    /// comes before a packet is moved.
    pub fn tick_step(&mut self, t: Tick, event: TickEvent) -> (r: (Tick, TickAction))
        requires
            old(self).wf(),
            tick_fits(t, event),
            event matches TickEvent::Timed { records, .. } ==> old(self)@.room(
                records@.len() as int,
            ),
        ensures
            final(self).wf(),
            ticks(old(self)@, t, event, final(self)@, r.0, r.1),
    {
        match event {
            TickEvent::Timed { records, machine } => {
                let session_id = t.ids[t.at];
                let (told, due) = self.ticked(session_id, &records, machine);
                let t = Tick { transitions: t.transitions.saturating_add(told), ..t };
                if due {
                    return (
                        Tick { stage: TickStage::Probing, ..t },
                        TickAction::Probe(session_id),
                    );
                }
                let from: usize = if t.at < t.ids.len() { t.at + 1 } else { t.at };
                self.tick_on(t, from)
            },
            TickEvent::Probed(sent) => {
                let from: usize = if t.at < t.ids.len() { t.at + 1 } else { t.at };
                self.tick_on(Tick { probes: t.probes.saturating_add(sent), ..t }, from)
            },
            TickEvent::Moved => {
                let at: usize = if t.at < t.ids.len() { t.at + 1 } else { t.at };
                move_next(Tick { at, ..t })
            },
        }
    }

    /// Takes what a session's timers did: the transitions they fired, oldest first, and
    /// where its machine now stands. How many were told, and whether the session is to be
    /// probed now: the timers come first, because they change what a probe means.
    fn ticked(
        &mut self,
        session_id: SessionId,
        records: &Vec<TransitionRecord>,
        machine: MachineReport,
    ) -> (r: (usize, bool))
        requires
            old(self).wf(),
            old(self)@.room(records@.len() as int),
        ensures
            final(self).wf(),
            final(self)@ == all_transitioned(
                after_timers(old(self)@, session_id, machine),
                records@,
            ),
            r.0 == records@.len(),
            r.1 == probed(final(self)@, session_id),
    {
        if let Some(entry) = self.sessions.take(session_id) {
            let mut entry = entry;
            entry.machine = machine;
            self.sessions.put(entry);
        }
        let ghost start = after_timers(old(self)@, session_id, machine);
        assert(self@ =~= start);
        let mut i: usize = 0;
        assert(records@.take(0) =~= Seq::<TransitionRecord>::empty());
        while i < records.len()
            invariant
                i <= records@.len(),
                self.wf(),
                self@ == all_transitioned(start, records@.take(i as int)),
                self@.stream.next_seq + records@.len() - i <= u64::MAX,
            decreases records@.len() - i,
        {
            self.publish_transition(records[i], None);
            assert(records@.take(i + 1).drop_last() =~= records@.take(i as int));
            i += 1;
        }
        assert(records@.take(records@.len() as int) =~= records@);
        let due = match self.sessions.get(session_id) {
            Some(entry) => entry.raced && entry.sockets.len() > 0 && entry.peer_endpoint.is_some(),
            None => false,
        };
        (records.len(), due)
    }
}

/// What is installed for one peer leaves every other session as it is.
pub proof fn an_installation_touches_one_session(
    m: CoreModel,
    session: SessionModel,
    other: Seq<u8>,
)
    requires
        other != session.session_id.bytes@,
    ensures
        m.with_session(session).sessions.contains_key(other) == m.sessions.contains_key(other),
        m.sessions.contains_key(other) ==> m.with_session(session).sessions[other]
            == m.sessions[other],
{
}

} // verus!
