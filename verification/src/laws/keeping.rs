//! What is kept: the cache, the queue of what is to be made durable, and the store.

use vstd::prelude::*;

use crate::bridge::{CommitOutcome, FlushPlan, HeldFact};
use crate::instance::CoreModel;
use crate::journal::is_forgotten;
use crate::planes::{admissible, taking_back_lowers_nothing, PeerModel, PlanesModel, WriteModel};
use crate::reason::{Component, Diagnostic, ReasonCode};
use crate::session::{DurableSession, SessionState};
use crate::session_table::{carried, names_of, MachineReport};
use crate::types::DeviceId;
use crate::vault::{all_decode, flush_answer, flush_begins, shuts_down, store_opens,
    ShutdownAction, StoreOpened};

verus! {

/// The control plane's cursor moves forward and never stands still: the first one is taken,
/// and after it any that is higher. What was taken is what is read, and every other
/// network's is as it was.
pub proof fn a_cursor_only_moves_forward(
    m: PlanesModel,
    twinnet: Seq<char>,
    net_seq: u64,
    other: Seq<char>,
)
    ensures
        admissible(m, WriteModel::Cursor { twinnet, net_seq }) <==> (!m.cursor.contains_key(twinnet)
            || net_seq > m.cursor[twinnet]),
        ({
            let after = m.accepted(WriteModel::Cursor { twinnet, net_seq });
            &&& after.cursor.contains_key(twinnet) && after.cursor[twinnet] == net_seq
            &&& !admissible(after, WriteModel::Cursor { twinnet, net_seq })
            &&& other != twinnet ==> after.cursor.contains_key(other) == m.cursor.contains_key(
                other,
            ) && after.cursor[other] == m.cursor[other]
            &&& after.trust_epoch == m.trust_epoch && after.documents == m.documents && after.peers
                == m.peers && after.causality == m.causality && after.last_refusal == m.last_refusal
            &&& after.pending.len() == m.pending.len() + 1
            &&& after.pending.last() == (WriteModel::Cursor { twinnet, net_seq })
        }),
{
}

/// A trust epoch is never lowered; the one that is held may be told again.
pub proof fn a_trust_epoch_is_never_lowered(
    m: PlanesModel,
    twinnet: Seq<char>,
    epoch: u64,
    other: Seq<char>,
)
    ensures
        admissible(m, WriteModel::TrustEpoch { twinnet, epoch }) <==> (!m.trust_epoch.contains_key(
            twinnet,
        ) || epoch >= m.trust_epoch[twinnet]),
        ({
            let after = m.accepted(WriteModel::TrustEpoch { twinnet, epoch });
            &&& after.trust_epoch.contains_key(twinnet) && after.trust_epoch[twinnet] == epoch
            &&& admissible(after, WriteModel::TrustEpoch { twinnet, epoch })
            &&& other != twinnet ==> after.trust_epoch.contains_key(other)
                == m.trust_epoch.contains_key(other) && after.trust_epoch[other]
                == m.trust_epoch[other]
            &&& after.cursor == m.cursor && after.documents == m.documents && after.peers == m.peers
                && after.causality == m.causality && after.last_refusal == m.last_refusal
            &&& after.pending.len() == m.pending.len() + 1
            &&& after.pending.last() == (WriteModel::TrustEpoch { twinnet, epoch })
        }),
{
}

/// A document gives way to a newer one, whatever that holds, and at its own version only to
/// its own content; no older one takes its place.
pub proof fn a_document_gives_way_to_a_newer_one(
    m: PlanesModel,
    twinnet: Seq<char>,
    doc_type: Seq<char>,
    version: u64,
    content_digest: [u8; 32],
    payload: Seq<u8>,
    other: (Seq<char>, Seq<char>),
)
    ensures
        ({
            let w = WriteModel::Document { twinnet, doc_type, version, content_digest, payload };
            let key = (twinnet, doc_type);
            let after = m.accepted(w);
            &&& !m.documents.contains_key(key) ==> admissible(m, w)
            &&& m.documents.contains_key(key) && version > m.documents[key].version ==> admissible(
                m,
                w,
            )
            &&& m.documents.contains_key(key) && version < m.documents[key].version ==> !admissible(
                m,
                w,
            )
            &&& m.documents.contains_key(key) && version == m.documents[key].version ==> (
            admissible(m, w) <==> content_digest == m.documents[key].content_digest)
            &&& after.documents.contains_key(key) && after.documents[key].version == version
                && after.documents[key].content_digest == content_digest
                && after.documents[key].payload == payload
            &&& other != key ==> after.documents.contains_key(other) == m.documents.contains_key(
                other,
            ) && after.documents[other] == m.documents[other]
            &&& after.cursor == m.cursor && after.trust_epoch == m.trust_epoch && after.peers
                == m.peers && after.causality == m.causality
            &&& after.pending.len() == m.pending.len() + 1 && after.pending.last() == w
        }),
{
}

/// Any record of a peer, its removal and any token is taken from the control plane: it
/// says what is so. A session's record is none of its writes.
pub proof fn what_the_control_plane_says_of_a_peer_is_taken(
    m: PlanesModel,
    twinnet: Seq<char>,
    device_id: DeviceId,
    record: PeerModel,
    reason_code: Seq<char>,
    token: Seq<u8>,
    value: Option<Seq<u8>>,
)
    ensures
        admissible(m, WriteModel::Peer { twinnet, device_id, record }),
        admissible(m, WriteModel::PeerRemoved { twinnet, device_id, reason_code }),
        admissible(m, WriteModel::CausalityToken { twinnet, token }),
        !admissible(m, WriteModel::Session { key: twinnet, value }),
        m.accepted(WriteModel::CausalityToken { twinnet, token }).causality.contains_key(twinnet),
        m.accepted(WriteModel::CausalityToken { twinnet, token }).causality[twinnet] == token,
        m.accepted(WriteModel::Peer { twinnet, device_id, record }).authorizes(device_id)
            <== record.verified,
{
    let after = m.accepted(WriteModel::Peer { twinnet, device_id, record });
    assert(after.peers.contains_key((twinnet, device_id.bytes@)));
}

/// A peer may be reached only while some network holds a record of it whose key binding
/// verified; its removal from the one that did takes that away.
pub proof fn a_removed_peer_is_not_authorized(
    m: PlanesModel,
    twinnet: Seq<char>,
    device_id: DeviceId,
    reason_code: Seq<char>,
    other: DeviceId,
)
    requires
        forall|t: Seq<char>| #[trigger]
            m.peers.contains_key((t, device_id.bytes@)) && m.peers[(t, device_id.bytes@)].verified
                ==> t == twinnet,
        other.bytes@ != device_id.bytes@,
    ensures
        !m.accepted(WriteModel::PeerRemoved { twinnet, device_id, reason_code }).authorizes(
            device_id,
        ),
        m.accepted(WriteModel::PeerRemoved { twinnet, device_id, reason_code }).authorizes(other)
            <==> m.authorizes(other),
{
    let after = m.accepted(WriteModel::PeerRemoved { twinnet, device_id, reason_code });
    if after.authorizes(device_id) {
        let t = choose|t: Seq<char>| #[trigger]
            after.peers.contains_key((t, device_id.bytes@)) && after.peers[(
                t,
                device_id.bytes@,
            )].verified;
        assert(m.peers.contains_key((t, device_id.bytes@)));
    }
    if m.authorizes(other) {
        let t = choose|t: Seq<char>| #[trigger]
            m.peers.contains_key((t, other.bytes@)) && m.peers[(t, other.bytes@)].verified;
        assert(after.peers.contains_key((t, other.bytes@)));
    }
    if after.authorizes(other) {
        let t = choose|t: Seq<char>| #[trigger]
            after.peers.contains_key((t, other.bytes@)) && after.peers[(t, other.bytes@)].verified;
        assert(m.peers.contains_key((t, other.bytes@)));
    }
}

/// What is queued is flushed whole: where there is a store and something is queued there is
/// one transaction to commit, it stands for every queued write, and the store's numbers go
/// on by as many. Nothing leaves the queue before the store has answered. Where nothing is
/// queued there is nothing to commit; and without a store a flush is refused.
pub proof fn a_flush_takes_the_whole_queue(
    m: CoreModel,
    after: CoreModel,
    r: Result<Option<FlushPlan>, Diagnostic>,
)
    requires
        flush_begins(m, after, r),
        m.bridge is Some ==> m.bridge->0.rec_seq + m.planes.pending.len() <= u64::MAX,
    ensures
        m.bridge is None ==> (r matches Err(d) && d.code == ReasonCode::StoreCustodyDegraded
            && d.component == Component::Store && after == m),
        m.bridge is Some ==> (r is Ok && (r->Ok_0 is Some <==> m.planes.pending.len() > 0)),
        m.bridge is Some && m.planes.pending.len() > 0 ==> r->Ok_0->0.count
            == m.planes.pending.len(),
        m.bridge is Some ==> after.bridge is Some && after.bridge->0.rec_seq
            == m.bridge->0.rec_seq + m.planes.pending.len() && after.bridge->0.flushes
            == m.bridge->0.flushes,
        after.planes == m.planes,
        after.sessions == m.sessions,
        after.stream == m.stream,
        after.journal == m.journal,
        after.enforcement == m.enforcement,
        after.vault_open == m.vault_open,
{
}

/// A commit is counted and takes from the queue what it stood for, and nothing behind it:
/// what was queued since is still queued. The number of writes is the answer, and a refusal
/// that was published is over.
pub proof fn a_commit_takes_what_it_stood_for(m: CoreModel, plan: FlushPlan, code: ReasonCode, i: int)
    requires
        m.bridge is Some,
        m.bridge->0.flushes < u64::MAX,
        plan.count <= m.planes.pending.len(),
    ensures
        ({
            let after = m.flushed(plan, CommitOutcome::Committed);
            &&& after.planes.pending.len() + plan.count == m.planes.pending.len()
            &&& 0 <= i < after.planes.pending.len() ==> after.planes.pending[i]
                == m.planes.pending[plan.count + i]
            &&& after.planes.last_refusal is None
            &&& after.bridge->0.flushes == m.bridge->0.flushes + 1
            &&& after.bridge->0.rec_seq == m.bridge->0.rec_seq
            &&& after.planes.cursor == m.planes.cursor && after.planes.trust_epoch
                == m.planes.trust_epoch && after.planes.documents == m.planes.documents
                && after.planes.peers == m.planes.peers && after.planes.causality
                == m.planes.causality
            &&& after.vault_open == m.vault_open && after.sessions == m.sessions && after.journal
                == m.journal
            &&& flush_answer(plan, CommitOutcome::Committed, code) == Ok::<usize, Diagnostic>(
                plan.count,
            )
        }),
{
}

/// A transaction that was not committed is reported as what the store calls the failure, and
/// is not counted. Where a floor refused it, it never will be: it leaves the queue, and what
/// refused it is published. Whatever else failed leaves everything queued for the next flush.
pub proof fn a_failed_flush_is_tried_again(
    m: CoreModel,
    plan: FlushPlan,
    outcome: CommitOutcome,
    code: ReasonCode,
)
    requires
        m.bridge is Some,
        plan.count <= m.planes.pending.len(),
        plan.count <= m.bridge->0.rec_seq,
        outcome !is Committed,
        outcome matches CommitOutcome::NameRefused { at } ==> at < plan.count,
    ensures
        ({
            let after = m.flushed(plan, outcome);
            &&& flush_answer(plan, outcome, code) matches Err(d) && d.code == code && d.component
                == Component::Store
            &&& after.bridge is Some && after.bridge->0.flushes == m.bridge->0.flushes
            &&& outcome !is FloorWouldDecrease ==> after.planes == m.planes
            &&& outcome matches CommitOutcome::FloorWouldDecrease(words)
                ==> after.planes.last_refusal == Some(words@) && after.planes.pending.len()
                + plan.count == m.planes.pending.len()
            &&& outcome matches CommitOutcome::NameRefused { at } ==> after.bridge->0.rec_seq
                == m.bridge->0.rec_seq - (plan.count - at - 1)
            &&& outcome !is NameRefused ==> after.bridge->0.rec_seq == m.bridge->0.rec_seq
            &&& after.vault_open == m.vault_open && after.sessions == m.sessions && after.stream
                == m.stream
        }),
{
}

/// A store that opened is open: its numbers go on from the last one that it gave. Where it
/// came up with authority suspended that is recorded and published. Every session that is to
/// be resumed is one that the journal knows, and every one that it knows is.
pub proof fn an_opened_store_is_open(
    m: CoreModel,
    store: StoreOpened,
    held: Seq<Vec<u8>>,
    registered: Seq<&'static str>,
    facts: Seq<HeldFact>,
    after: CoreModel,
    order: Seq<Seq<u8>>,
    r: Result<Vec<DurableSession>, Diagnostic>,
    id: Seq<u8>,
)
    requires
        !m.vault_open,
        store_opens(m, Ok(store), held, registered, facts, after, order, r),
    ensures
        after.vault_open,
        after.bridge is Some && after.bridge->0.rec_seq == store.store_seq
            && after.bridge->0.flushes == 0,
        !store.suspend_granted_authority ==> after.stream == m.stream && after.ledger == m.ledger,
        store.suspend_granted_authority && !m.stream.closed && m.stream.capacity > 0
            ==> after.stream.queue.len() > 0 && (after.stream.queue.last().kind matches
            crate::events::CoreEventKind::Diagnostic(d) && d.code
            == ReasonCode::StoreCustodyDegraded && d.component == Component::Store),
        after.sessions == m.sessions,
        after.enforcement == m.enforcement,
        after.planes.pending == m.planes.pending,
        m.planes.peers.submap_of(after.planes.peers),
        r is Ok,
        m.journal.contains_key(id) ==> after.journal.contains_key(id) && after.journal[id]
            == m.journal[id],
        !m.journal.contains_key(id) && is_forgotten(m.planes.pending, id)
            ==> !after.journal.contains_key(id),
        !all_decode(held) ==> after.journal == m.journal,
        after.journal.contains_key(id) ==> r->Ok_0@.contains(after.journal[id]),
{
    if crate::bridge::all_read(facts) {
        taking_back_lowers_nothing(m.planes, crate::bridge::facts_of(facts));
    }
    if after.journal.contains_key(id) {
        assert(order.contains(id));
        let i = choose|i: int| 0 <= i < order.len() && order[i] == id;
        assert(r->Ok_0@[i] == after.journal[order[i]]);
    }
}

/// A store is opened once: doing it again changes nothing and resumes nothing. One that
/// cannot be opened is told as what it gives, and leaves everything as it was.
pub proof fn a_store_is_opened_once(
    m: CoreModel,
    store: Result<StoreOpened, ReasonCode>,
    held: Seq<Vec<u8>>,
    registered: Seq<&'static str>,
    facts: Seq<HeldFact>,
    after: CoreModel,
    order: Seq<Seq<u8>>,
    r: Result<Vec<DurableSession>, Diagnostic>,
)
    requires
        m.vault_open || store is Err,
        store_opens(m, store, held, registered, facts, after, order, r),
    ensures
        after == m,
        m.vault_open ==> r is Ok && r->Ok_0@.len() == 0,
        !m.vault_open ==> (r matches Err(d) && d.code == store->Err_0 && d.component
            == Component::Store),
{
}

/// A session that is resumed is wanted back, and has nothing yet: no path and no key, no
/// tunnel, no candidate. One that was not wanted stays at rest. A session that is known is
/// left alone, and so is every other.
pub proof fn a_resumed_session_starts_anew(
    m: CoreModel,
    record: DurableSession,
    machine: MachineReport,
    other: Seq<u8>,
)
    requires
        other != record.session_id.bytes@,
    ensures
        ({
            let after = m.resumed(record, machine);
            let id = record.session_id.bytes@;
            &&& m.sessions.contains_key(id) ==> after == m
            &&& after.sessions.contains_key(id)
            &&& !m.sessions.contains_key(id) ==> {
                let s = after.sessions[id];
                &&& s.session_id == record.session_id && s.peer == record.peer
                &&& s.machine.state == (if record.last_state == SessionState::Disconnected {
                    SessionState::Disconnected
                } else {
                    SessionState::Reconnecting { parked: false }
                })
                &&& s.machine.reason == machine.reason
                &&& s.keying is None && s.peer_endpoint is None && s.established is None
                &&& !s.relay && !s.relay_access && !s.raced
                &&& s.rows.len() == 0 && s.sockets.len() == 0
            }
            &&& after.sessions.contains_key(other) == m.sessions.contains_key(other)
            &&& m.sessions.contains_key(other) ==> after.sessions[other] == m.sessions[other]
            &&& after.planes == m.planes && after.journal == m.journal && after.enforcement
                == m.enforcement
        }),
{
}

proof fn each_that_carries_is_named(
    sessions: Map<Seq<u8>, crate::session_table::SessionModel>,
    names: Seq<Seq<u8>>,
    name: Seq<u8>,
)
    requires
        names.contains(name),
        sessions.contains_key(name),
        sessions[name].established is Some,
    ensures
        carried(sessions, names).contains(name),
    decreases names.len(),
{
    let front = carried(sessions, names.drop_last());
    let all = carried(sessions, names);
    if names.last() == name {
        assert(all.last() == name);
        assert(all[all.len() - 1] == name);
    } else {
        let i = choose|i: int| 0 <= i < names.len() && names[i] == name;
        assert(names.drop_last()[i] == name);
        each_that_carries_is_named(sessions, names.drop_last(), name);
        let j = choose|j: int| 0 <= j < front.len() && front[j] == name;
        assert(all[j] == name);
    }
}

/// A shutdown makes what is queued durable first, where there is an open store; nothing is
/// stopped before the store has answered. Where there is nothing to make durable it stops
/// at once: every session whose tunnel carried is named, none carries any more, the stream
/// is closed and no store is open. What is enforced stays.
pub proof fn a_shutdown_goes_in_order(
    m: CoreModel,
    order: Seq<Seq<u8>>,
    after: CoreModel,
    action: ShutdownAction,
    name: Seq<u8>,
)
    requires
        shuts_down(m, order, after, action),
        order.contains(name),
        m.sessions.contains_key(name),
    ensures
        action is Commit <==> (m.vault_open && m.bridge is Some && m.planes.pending.len() > 0),
        action matches ShutdownAction::Commit(plan) ==> plan.count == m.planes.pending.len()
            && after.sessions == m.sessions && after.stream == m.stream && after.vault_open,
        action matches ShutdownAction::Stop(ended) ==> {
            &&& m.sessions[name].established is Some ==> names_of(ended.stopped@).contains(name)
            &&& after.sessions.contains_key(name) && after.sessions[name].established is None
            &&& after.sessions[name].machine == m.sessions[name].machine
            &&& after.stream.closed && !after.vault_open
            &&& ended.close <==> m.bridge is Some
            &&& ended.flushed is Err <==> m.vault_open && m.bridge is None
        },
        after.enforcement == m.enforcement,
        after.planes == m.planes,
{
    if m.sessions[name].established is Some {
        each_that_carries_is_named(m.sessions, order, name);
    }
}

} // verus!
