//! The durable half of an instance, and how an instance ends.
//!
//! Until a store is open an instance says so, and a flush is refused: nothing can be
//! reported as durable that has nowhere to go.

use vstd::prelude::*;

use crate::bridge::{all_read, facts_of, first_refused, is_refused, ops_view, read_facts, staged_all,
    CommitOutcome, FlushPlan, HeldFact, StoreBridge, StoreError};
use crate::events::StreamModel;
use crate::instance::{Core, CoreModel, VaultState};
use crate::journal::{decode, decodes, lists_sessions, reads_as, remembered, restored_map,
    JournalError};
use crate::planes::{taking_back_lowers_nothing, PlanesModel, WriteModel};
use crate::reason::{Component, Diagnostic, ReasonCode};
use crate::session::DurableSession;
use crate::session_table::{carried, lists_carrying, lists_names, names_of, resumed_report, MachineReport,
    SessionEntry, SessionModel};
use crate::types::SessionId;

verus! {

/// What a store says of itself when it was opened.
#[derive(Debug, Clone, Copy, PartialEq, Eq, Structural)]
pub struct StoreOpened {
    /// The last sequence number that it gave to a record.
    pub store_seq: u64,
    /// Whether authority that was granted is suspended, because of how the store came
    /// up.
    pub suspend_granted_authority: bool,
}

/// A refusal of the store.
pub open spec fn store_refuses(code: ReasonCode) -> Diagnostic {
    Diagnostic::plain(code, Component::Store)
}

impl CoreModel {
    /// After a store was opened.
    pub open spec fn opened(self, store: StoreOpened) -> CoreModel {
        let told = if store.suspend_granted_authority {
            self.diagnosed(store_refuses(ReasonCode::StoreCustodyDegraded))
        } else {
            self
        };
        CoreModel {
            bridge: Some(StoreBridge { rec_seq: store.store_seq, flushes: 0 }),
            vault_open: true,
            ..told
        }
    }

    /// After a session that an earlier process left was resumed.
    pub open spec fn resumed(self, record: DurableSession, machine: MachineReport) -> CoreModel {
        if self.sessions.contains_key(record.session_id.bytes@) {
            self
        } else {
            self.with_session(
                SessionModel::fresh(
                    record.session_id,
                    record.peer,
                    resumed_report(record, machine),
                ),
            )
        }
    }

    /// After a flush began: every queued write has a number.
    pub open spec fn flushing(self) -> CoreModel {
        match self.bridge {
            None => self,
            Some(b) => CoreModel {
                bridge: Some(
                    StoreBridge {
                        rec_seq: (b.rec_seq + self.planes.pending.len()) as u64,
                        ..b
                    },
                ),
                ..self
            },
        }
    }

    /// After the store answered a transaction: what it committed is no longer queued, nor
    /// is what a floor refused; anything else stays queued.
    pub open spec fn flushed(self, plan: FlushPlan, outcome: CommitOutcome) -> CoreModel {
        CoreModel {
            planes: match outcome {
                CommitOutcome::Committed => PlanesModel {
                    pending: self.planes.pending.skip(plan.count as int),
                    last_refusal: None,
                    ..self.planes
                },
                CommitOutcome::FloorWouldDecrease(words) => PlanesModel {
                    pending: self.planes.pending.skip(plan.count as int),
                    last_refusal: Some(words@),
                    ..self.planes
                },
                _ => self.planes,
            },
            bridge: Some(bridge_after(self.bridge->0, plan, outcome)),
            ..self
        }
    }

    /// Something is queued, and there is an open store to make it durable.
    pub open spec fn must_flush(self) -> bool {
        self.vault_open && self.bridge is Some && self.planes.pending.len() > 0
    }

    /// After it shut down: it began to, and no store is open any more.
    pub open spec fn shut_down(self) -> CoreModel {
        CoreModel { vault_open: false, ..self.shutting_down() }
    }

    /// After it began to shut down: nothing carries, and the stream is closed. What
    /// is enforced is left alone.
    pub open spec fn shutting_down(self) -> CoreModel {
        CoreModel {
            stream: StreamModel { closed: true, ..self.stream },
            ..self.all_torn_down()
        }
    }
}

/// The bridge after the store answered a transaction: a commit is counted, and a refused
/// name gives back the numbers behind it.
pub open spec fn bridge_after(b: StoreBridge, plan: FlushPlan, outcome: CommitOutcome) -> StoreBridge {
    match outcome {
        CommitOutcome::Committed => StoreBridge { flushes: (b.flushes + 1) as u64, ..b },
        CommitOutcome::NameRefused { at } => StoreBridge {
            rec_seq: (b.rec_seq - plan.count + at + 1) as u64,
            ..b
        },
        _ => b,
    }
}

/// What the store's answer to a transaction is reported as: how many writes became
/// durable, or what the store calls the failure.
pub open spec fn flush_answer(plan: FlushPlan, outcome: CommitOutcome, code: ReasonCode) -> Result<
    usize,
    Diagnostic,
> {
    match outcome {
        CommitOutcome::Committed => Ok(plan.count),
        _ => Err(store_refuses(code)),
    }
}

/// Every record that the store held decodes.
pub open spec fn all_decode(held: Seq<Vec<u8>>) -> bool {
    forall|i: int| 0 <= i < held.len() ==> decodes((#[trigger] held[i])@)
}

/// `s` is a session record that decodes, and says `r`.
pub open spec fn says(s: Seq<u8>, registered: Seq<&'static str>, r: DurableSession) -> bool {
    decodes(s) && reads_as(s, registered, r)
}

/// `list` is what the records that the store held say, in their order.
pub open spec fn read_all(
    held: Seq<Vec<u8>>,
    registered: Seq<&'static str>,
    list: Seq<DurableSession>,
) -> bool {
    &&& list.len() == held.len()
    &&& forall|i: int| 0 <= i < held.len() ==> says(held[i]@, registered, #[trigger] list[i])
}

/// The journal after the store's records were added to it: those of the store whose removal
/// is not queued, and over them those that were there. Where one of them does not decode it
/// is as it was.
pub open spec fn hydrates(
    before: Map<Seq<u8>, DurableSession>,
    queue: Seq<WriteModel>,
    held: Seq<Vec<u8>>,
    registered: Seq<&'static str>,
    after: Map<Seq<u8>, DurableSession>,
) -> bool {
    if all_decode(held) {
        exists|list: Seq<DurableSession>| #[trigger]
            read_all(held, registered, list) && after == remembered(
                restored_map(list),
                queue,
            ).union_prefer_right(before)
    } else {
        after == before
    }
}

/// What opening a store leaves, and the sessions that are to be resumed; `order` is that of
/// the journal.
pub open spec fn store_opens(
    m: CoreModel,
    store: Result<StoreOpened, ReasonCode>,
    held: Seq<Vec<u8>>,
    registered: Seq<&'static str>,
    facts: Seq<HeldFact>,
    after: CoreModel,
    order: Seq<Seq<u8>>,
    r: Result<Vec<DurableSession>, Diagnostic>,
) -> bool {
    if m.vault_open {
        r matches Ok(restored) && restored@.len() == 0 && after == m
    } else {
        match store {
            Err(code) => {
                &&& r == Err::<Vec<DurableSession>, Diagnostic>(store_refuses(code))
                &&& after == m
            },
            Ok(store) => {
                &&& after == (CoreModel {
                    journal: after.journal,
                    planes: planes_hydrated(m.planes, facts),
                    ..m.opened(store)
                })
                &&& hydrates(
                    m.journal,
                    m.planes.pending,
                    held,
                    registered,
                    after.journal,
                )
                &&& r matches Ok(restored) && lists_sessions(
                    after.journal,
                    order,
                    restored@,
                )
            },
        }
    }
}

/// How making what is queued durable begins.
pub open spec fn flush_begins(
    m: CoreModel,
    after: CoreModel,
    r: Result<Option<FlushPlan>, Diagnostic>,
) -> bool {
    match m.bridge {
        None => {
            &&& r == Err::<Option<FlushPlan>, Diagnostic>(
                store_refuses(ReasonCode::StoreCustodyDegraded),
            )
            &&& after == m
        },
        Some(bridge) => {
            let pending = m.planes.pending;
            &&& after == m.flushing()
            &&& match r {
                Ok(None) => pending.len() == 0,
                Ok(Some(plan)) => {
                    &&& pending.len() > 0
                    &&& plan.count == pending.len()
                    &&& ops_view(plan.ops@) == staged_all(pending, bridge.rec_seq as int)
                },
                Err(_) => false,
            }
        },
    }
}

/// What is left to do once an instance has shut down.
#[derive(Debug)]
pub struct Ended {
    /// Whether there is a store to close.
    pub close: bool,
    /// The sessions whose directions are to be stopped.
    pub stopped: Vec<SessionId>,
    /// How many writes the last flush made durable; or why it made none.
    pub flushed: Result<usize, Diagnostic>,
}

/// How a shutdown begins; `order` is that of the sessions.
pub open spec fn shuts_down(
    m: CoreModel,
    order: Seq<Seq<u8>>,
    after: CoreModel,
    action: ShutdownAction,
) -> bool {
    match action {
        ShutdownAction::Commit(plan) => {
            let pending = m.planes.pending;
            &&& m.must_flush()
            &&& after == m.flushing()
            &&& plan.count == pending.len()
            &&& ops_view(plan.ops@) == staged_all(pending, m.bridge->0.rec_seq as int)
        },
        ShutdownAction::Stop(ended) => {
            &&& !m.must_flush()
            &&& after == m.shut_down()
            &&& ended.close == (m.bridge is Some)
            &&& names_of(ended.stopped@) == carried(
                m.sessions,
                order,
            )
            &&& ended.flushed == (if m.vault_open && m.bridge is None {
                Err::<usize, Diagnostic>(store_refuses(ReasonCode::StoreCustodyDegraded))
            } else {
                Ok::<usize, Diagnostic>(0)
            })
        },
    }
}

/// How a shutdown goes on.
#[derive(Debug)]
pub enum ShutdownAction {
    /// Commit this first.
    Commit(FlushPlan),
    /// Nothing is to be made durable: it has shut down.
    Stop(Ended),
}

/// The cache after what the store held of the control plane was offered to it. Where one
/// of its records does not decode the cache is as it was.
pub open spec fn planes_hydrated(before: PlanesModel, facts: Seq<HeldFact>) -> PlanesModel {
    if all_read(facts) {
        before.all_taken_back(facts_of(facts))
    } else {
        before
    }
}

impl Core {
    /// Whether the durable store is open.
    #[must_use]
    pub fn vault_state(&self) -> (s: VaultState)
        ensures
            s == (if self.vault_open {
                VaultState::Open
            } else {
                VaultState::Absent
            }),
    {
        if self.vault_open {
            VaultState::Open
        } else {
            VaultState::Absent
        }
    }

    /// Adds the session records that the store held to the journal, but for those whose
    /// removal is queued, and hands over what was held. Where one of them does not decode,
    /// nothing is added.
    pub fn hydrate(&mut self, held: &Vec<Vec<u8>>, registered: &Vec<&'static str>) -> (r: Result<
        Vec<DurableSession>,
        JournalError,
    >)
        requires
            old(self).wf(),
        ensures
            final(self).wf(),
            match r {
                Ok(list) => {
                    &&& read_all(held@, registered@, list@)
                    &&& final(self)@ == (CoreModel {
                        journal: remembered(
                            restored_map(list@),
                            old(self)@.planes.pending,
                        ).union_prefer_right(old(self)@.journal),
                        ..old(self)@
                    })
                },
                Err(e) => {
                    &&& e == JournalError::Corrupt
                    &&& !all_decode(held@)
                    &&& final(self)@ == old(self)@
                },
            },
    {
        let mut list: Vec<DurableSession> = Vec::new();
        let mut i: usize = 0;
        while i < held.len()
            invariant
                i <= held@.len(),
                *self == *old(self),
                self.wf(),
                list@.len() == i,
                forall|j: int|
                    0 <= j < i ==> says(held@[j]@, registered@, #[trigger] list@[j]),
            decreases held@.len() - i,
        {
            let bytes = held[i].as_slice();
            assert(bytes@ == held@[i as int]@);
            match decode(bytes, registered) {
                Err(e) => {
                    return Err(e);
                },
                Ok(record) => {
                    list.push(record);
                },
            }
            i += 1;
        }
        self.journal.restore(&self.port.shared, &list);
        Ok(list)
    }

    /// Brings back the cursors, trust epochs, documents, peers and causality tokens that
    /// the store held. Where a record does not decode it is refused, and nothing is
    /// brought back. Nothing is queued: the store has it all.
    pub fn hydrate_planes(&mut self, facts: &Vec<HeldFact>) -> (r: Result<(), StoreError>)
        requires
            old(self).wf(),
        ensures
            final(self).wf(),
            match r {
                Ok(_) => {
                    &&& all_read(facts@)
                    &&& final(self)@ == (CoreModel {
                        planes: old(self)@.planes.all_taken_back(facts_of(facts@)),
                        ..old(self)@
                    })
                },
                Err(e) => {
                    &&& is_refused(facts@, e)
                    &&& final(self)@ == old(self)@
                },
            },
            final(self).journal == old(self).journal,
    {
        match read_facts(facts) {
            Ok(writes) => {
                self.port.take_back(&writes);
                Ok(())
            },
            Err(e) => Err(e),
        }
    }

    /// Takes the store that was opened, the session records that it held and what it held
    /// of the control plane, and lists the sessions that the journal then knows, each of
    /// which is to be resumed. An instance that has a store keeps it: opening again
    /// changes nothing.
    pub fn open_store(
        &mut self,
        store: Result<StoreOpened, ReasonCode>,
        held: &Vec<Vec<u8>>,
        registered: &Vec<&'static str>,
        facts: &Vec<HeldFact>,
    ) -> (r: Result<Vec<DurableSession>, Diagnostic>)
        requires
            old(self).wf(),
            old(self)@.room(1),
        ensures
            final(self).wf(),
            store_opens(
                old(self)@,
                store,
                held@,
                registered@,
                facts@,
                final(self)@,
                final(self).journal.records.order(),
                r,
            ),
    {
        if self.vault_open {
            return Ok(Vec::new());
        }
        match store {
            Err(code) => Err(Diagnostic::new(code, Component::Store)),
            Ok(store) => {
                if store.suspend_granted_authority {
                    self.publish_diagnostic(
                        Diagnostic::new(ReasonCode::StoreCustodyDegraded, Component::Store),
                    );
                }
                self.bridge = Some(StoreBridge::new(store.store_seq));
                self.vault_open = true;
                let brought_back = self.hydrate_planes(facts);
                proof {
                    taking_back_lowers_nothing(old(self)@.planes, facts_of(facts@));
                    if let Err(e) = brought_back {
                        let i = choose|i: int| #[trigger] first_refused(facts@, i, e);
                        assert(facts@[i]@.read() is None);
                    }
                }
                let hydrated = self.hydrate(held, registered);
                proof {
                    if let Ok(list) = hydrated {
                        assert(read_all(held@, registered@, list@));
                        assert forall|i: int| 0 <= i < held@.len() implies decodes(
                            (#[trigger] held@[i])@,
                        ) by {
                            let _ = list@[i];
                        }
                    }
                }
                let restored = self.journal.load_all();
                Ok(restored)
            },
        }
    }

    /// Resumes a session that an earlier process left: it stands where its record
    /// resumes, and the rest is as its machine reports. A session that is known already
    /// is left as it is.
    pub fn resume(&mut self, record: &DurableSession, machine: MachineReport)
        requires
            old(self).wf(),
        ensures
            final(self).wf(),
            final(self)@ == old(self)@.resumed(*record, machine),
    {
        if !self.sessions.contains(record.session_id) {
            self.sessions.put(SessionEntry::resumed(record, machine));
        }
    }

    /// Begins to make every queued write durable: the one transaction to commit, or
    /// `None` where nothing is queued. Without a store this is refused.
    pub fn flush(&mut self) -> (r: Result<Option<FlushPlan>, Diagnostic>)
        requires
            old(self).wf(),
            old(self).bridge matches Some(b) ==> b.rec_seq + old(self)@.planes.pending.len()
                <= u64::MAX,
        ensures
            final(self).wf(),
            final(self).sessions == old(self).sessions,
            flush_begins(old(self)@, final(self)@, r),
    {
        match self.bridge.take() {
            None => Err(Diagnostic::new(ReasonCode::StoreCustodyDegraded, Component::Store)),
            Some(bridge) => {
                let mut bridge = bridge;
                let plan = bridge.flush_begin(&self.port.shared);
                self.bridge = Some(bridge);
                Ok(plan)
            },
        }
    }

    /// Takes the store's answer to a transaction. Whatever it is, the store stays
    /// open. `code` is what the store calls a failure.
    pub fn flushed(&mut self, plan: &FlushPlan, outcome: CommitOutcome, code: ReasonCode) -> (r:
        Result<usize, Diagnostic>)
        requires
            old(self).wf(),
            old(self).bridge matches Some(b) && b.flushes < u64::MAX && plan.count <= b.rec_seq,
            plan.count <= old(self)@.planes.pending.len(),
            outcome matches CommitOutcome::NameRefused { at } ==> at < plan.count,
        ensures
            final(self).wf(),
            final(self).sessions == old(self).sessions,
            final(self)@ == old(self)@.flushed(*plan, outcome),
            r == flush_answer(*plan, outcome, code),
    {
        let taken = self.bridge.take();
        match taken {
            None => Err(Diagnostic::new(code, Component::Store)),
            Some(bridge) => {
                let mut bridge = bridge;
                let finished = bridge.flush_finish(&mut self.port.shared, plan, outcome);
                self.bridge = Some(bridge);
                match finished {
                    Ok(count) => Ok(count),
                    Err(_) => Err(Diagnostic::new(code, Component::Store)),
                }
            },
        }
    }

    /// Tears every session down, and names those that were carrying.
    pub fn stop_all(&mut self) -> (stopped: Vec<SessionId>)
        requires
            old(self).wf(),
        ensures
            final(self).wf(),
            final(self)@ == old(self)@.all_torn_down(),
            names_of(stopped@) == carried(old(self)@.sessions, old(self).sessions.order()),
            lists_carrying(old(self)@.sessions, stopped@),
    {
        let ghost before = self@.sessions;
        let stopped = self.sessions.carrying();
        let ids = self.sessions.ids();
        let mut i: usize = 0;
        while i < ids.len()
            invariant
                i <= ids@.len(),
                self.wf(),
                lists_names(before, ids@),
                self@ == (CoreModel { sessions: self@.sessions, ..old(self)@ }),
                forall|k: Seq<u8>| #[trigger] self@.sessions.contains_key(k) <==> before.contains_key(k),
                forall|k: Seq<u8>| #[trigger]
                    before.contains_key(k) ==> self@.sessions[k] == before[k] || self@.sessions[k]
                        == before[k].torn_down(),
                forall|j: int|
                    0 <= j < i ==> self@.sessions[(#[trigger] ids@[j]).bytes@]
                        == before[ids@[j].bytes@].torn_down(),
            decreases ids@.len() - i,
        {
            let id = ids[i];
            assert(before.contains_key(id.bytes@));
            assert(self@.sessions.contains_key(id.bytes@));
            if let Some(entry) = self.sessions.take(id) {
                let mut entry = entry;
                let _ = entry.tear_down();
                self.sessions.put(entry);
            }
            assert(self@.sessions[id.bytes@] == before[id.bytes@].torn_down());
            i += 1;
        }
        proof {
            let after = old(self)@.all_torn_down().sessions;
            assert forall|k: Seq<u8>| #[trigger] before.contains_key(k) implies self@.sessions[k]
                == after[k] by {
                let j = choose|j: int| 0 <= j < ids@.len() && (#[trigger] ids@[j]).bytes@ == k;
                assert(self@.sessions[ids@[j].bytes@] == before[ids@[j].bytes@].torn_down());
            }
            assert(self@.sessions =~= after);
        }
        stopped
    }

    /// Begins to shut down: what carries is stopped, before anything that it needs,
    /// and the stream is closed, so that whoever waits on it is let go. Names the
    /// sessions whose directions are to be stopped. What is enforced stays.
    pub fn begin_shutdown(&mut self) -> (stopped: Vec<SessionId>)
        requires
            old(self).wf(),
        ensures
            final(self).wf(),
            final(self)@ == old(self)@.shutting_down(),
            names_of(stopped@) == carried(old(self)@.sessions, old(self).sessions.order()),
    {
        let stopped = self.stop_all();
        self.events.close();
        stopped
    }

    fn stop(&mut self, flushed: Result<usize, Diagnostic>) -> (ended: Ended)
        requires
            old(self).wf(),
        ensures
            final(self).wf(),
            final(self)@ == old(self)@.shut_down(),
            ended.close == (old(self).bridge is Some),
            names_of(ended.stopped@) == carried(old(self)@.sessions, old(self).sessions.order()),
            ended.flushed == flushed,
    {
        let close = self.bridge.is_some();
        self.vault_open = false;
        let stopped = self.begin_shutdown();
        Ended { close, stopped, flushed }
    }

    /// Shuts down. What is queued is made durable first, while that can still be done:
    /// where a store is open and something is queued, nothing is stopped before the
    /// store has answered.
    pub fn shutdown(&mut self) -> (action: ShutdownAction)
        requires
            old(self).wf(),
            old(self).bridge matches Some(b) ==> b.rec_seq + old(self)@.planes.pending.len()
                <= u64::MAX,
        ensures
            final(self).wf(),
            shuts_down(old(self)@, old(self).sessions.order(), final(self)@, action),
    {
        if !self.vault_open {
            return ShutdownAction::Stop(self.stop(Ok(0)));
        }
        match self.flush() {
            Err(diagnostic) => ShutdownAction::Stop(self.stop(Err(diagnostic))),
            Ok(None) => ShutdownAction::Stop(self.stop(Ok(0))),
            Ok(Some(plan)) => ShutdownAction::Commit(plan),
        }
    }

    /// Takes the store's answer to the last transaction, and shuts down whatever it is.
    /// The answer is handed back.
    pub fn shutdown_step(&mut self, plan: &FlushPlan, outcome: CommitOutcome, code: ReasonCode) -> (
    ended: Ended)
        requires
            old(self).wf(),
            old(self).bridge matches Some(b) && b.flushes < u64::MAX && plan.count <= b.rec_seq,
            plan.count <= old(self)@.planes.pending.len(),
            outcome matches CommitOutcome::NameRefused { at } ==> at < plan.count,
        ensures
            final(self).wf(),
            final(self)@ == old(self)@.flushed(*plan, outcome).shut_down(),
            ended.close,
            names_of(ended.stopped@) == carried(old(self)@.sessions, old(self).sessions.order()),
            ended.flushed == flush_answer(*plan, outcome, code),
    {
        let flushed = self.flushed(plan, outcome, code);
        self.stop(flushed)
    }
}

/// A shutdown loses nothing that could be made durable: where a store is open and
/// something is queued, it stops only after the store's answer, and where the store
/// committed, nothing is queued any more.
pub proof fn a_shutdown_flushes_first(m: CoreModel, plan: FlushPlan)
    requires
        m.must_flush(),
        plan.count == m.planes.pending.len(),
    ensures
        m.flushing().vault_open,
        m.flushing().sessions == m.sessions,
        m.flushing().stream == m.stream,
        m.flushing().planes.pending == m.planes.pending,
        m.flushing().flushed(plan, CommitOutcome::Committed).shut_down().planes.pending.len() == 0,
{
}

/// Neither shutting down nor poisoning touches what is enforced: the core going away
/// does not drop protection. Poisoning happens once, and for good.
pub proof fn ending_keeps_the_rules(m: CoreModel)
    ensures
        m.shutting_down().enforcement == m.enforcement,
        m.after_poison().enforcement == m.enforcement,
        m.after_poison().poisoned,
        m.after_poison().after_poison() == m.after_poison(),
{
}

/// Once it shuts down no session carries, and nothing is published any more.
pub proof fn a_shutdown_stops_everything(
    m: CoreModel,
    name: Seq<u8>,
    kind: crate::events::CoreEventKind,
    actor: Option<String>,
)
    ensures
        m.shutting_down().sessions.contains_key(name) ==> !m.shutting_down().sessions[name].is_carrying(),
        m.shutting_down().told(kind, actor) == m.shutting_down(),
{
}

} // verus!
