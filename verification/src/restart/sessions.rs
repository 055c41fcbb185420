//! What a restart brings back of the sessions: the records that were queued become the vault's,
//! and those of the vault become the journal of the next process, which resumes each.

use vstd::prelude::*;

use crate::bridge::{staged, staged_all, NameModel, Namespace, OpModel};
use crate::instance::CoreModel;
use crate::journal::{a_restored_record_was_listed, a_session_record_survives_the_vault,
    a_written_session_record_decodes, hex_text, is_forgotten, keeps_its_reason, remembered, restored_map,
    session_keys_are_distinct, session_octets};
use crate::planes::WriteModel;
use crate::session::{resumes_in, DurableSession, SessionState};
use crate::session_table::{resumed_report, MachineReport, SessionModel};
use crate::vault::{all_decode, read_all, says};

verus! {

/// The session records of a vault, by their keys.
pub type Vault = Map<Seq<char>, Seq<u8>>;

/// The session records of a vault after one step of a transaction.
pub open spec fn vault_step(v: Vault, op: OpModel) -> Vault {
    match op {
        OpModel::Write {
            namespace: Namespace::Session,
            name: NameModel::Session(key),
            value,
            ..
        } => v.insert(key, value),
        OpModel::Delete { namespace: Namespace::Session, name: NameModel::Session(key) } => v.remove(
            key,
        ),
        _ => v,
    }
}

/// The session records of a vault after a transaction was committed.
pub open spec fn vault_after(v: Vault, ops: Seq<OpModel>) -> Vault
    decreases ops.len(),
{
    if ops.len() == 0 {
        v
    } else {
        vault_step(vault_after(v, ops.drop_last()), ops.last())
    }
}

/// The session records of a vault once these writes are durable.
pub open spec fn sessions_after(v: Vault, ws: Seq<WriteModel>) -> Vault
    decreases ws.len(),
{
    if ws.len() == 0 {
        v
    } else {
        let front = sessions_after(v, ws.drop_last());
        match ws.last() {
            WriteModel::Session { key, value: Some(bytes) } => front.insert(key, bytes),
            WriteModel::Session { key, value: None } => front.remove(key),
            _ => front,
        }
    }
}

/// The vault and what is queued for it hold the journal: each of its records under the
/// key of its session, and no other session's.
pub open spec fn holds_the_journal(
    v: Vault,
    ws: Seq<WriteModel>,
    journal: Map<Seq<u8>, DurableSession>,
) -> bool {
    &&& forall|id: Seq<u8>| #[trigger]
        journal.contains_key(id) ==> journal[id].session_id.bytes@ == id && id.len() == 16
    &&& forall|id: Seq<u8>| #[trigger]
        journal.contains_key(id) ==> sessions_after(v, ws).contains_key(hex_text(id))
            && sessions_after(v, ws)[hex_text(id)] == session_octets(journal[id])
    &&& forall|key: Seq<char>| #[trigger]
        sessions_after(v, ws).contains_key(key) ==> exists|id: Seq<u8>| #[trigger]
            journal.contains_key(id) && hex_text(id) == key
}

/// What a record's persistence queues.
pub open spec fn persisted(r: DurableSession) -> WriteModel {
    WriteModel::Session {
        key: hex_text(r.session_id.bytes@),
        value: Some(session_octets(r)),
    }
}

/// What forgetting a session queues.
pub open spec fn forgotten(id: Seq<u8>) -> WriteModel {
    WriteModel::Session { key: hex_text(id), value: None }
}

/// Persisting a record keeps the vault and its queue holding the journal.
pub proof fn persisting_holds_the_journal(
    v: Vault,
    ws: Seq<WriteModel>,
    journal: Map<Seq<u8>, DurableSession>,
    r: DurableSession,
)
    requires
        holds_the_journal(v, ws, journal),
    ensures
        holds_the_journal(v, ws.push(persisted(r)), journal.insert(r.session_id.bytes@, r)),
{
    let id = r.session_id.bytes@;
    let after = journal.insert(id, r);
    let next = sessions_after(v, ws.push(persisted(r)));
    assert(ws.push(persisted(r)).drop_last() =~= ws);
    assert(next == sessions_after(v, ws).insert(hex_text(id), session_octets(r)));
    assert forall|k: Seq<u8>| #[trigger] after.contains_key(k) implies next.contains_key(hex_text(k))
        && next[hex_text(k)] == session_octets(after[k]) by {
        if k != id {
            assert(journal.contains_key(k));
            if hex_text(k) == hex_text(id) {
                session_keys_are_distinct(k, id);
            }
        }
    }
    assert forall|key: Seq<char>| #[trigger] next.contains_key(key) implies exists|k: Seq<u8>|
     #[trigger] after.contains_key(k) && hex_text(k) == key by {
        if key == hex_text(id) {
            assert(after.contains_key(id));
        } else {
            assert(sessions_after(v, ws).contains_key(key));
            let k = choose|k: Seq<u8>| #[trigger] journal.contains_key(k) && hex_text(k) == key;
            assert(after.contains_key(k));
        }
    }
    assert forall|k: Seq<u8>| #[trigger] after.contains_key(k) implies after[k].session_id.bytes@
        == k && k.len() == 16 by {
        if k != id {
            assert(journal.contains_key(k));
        }
    }
}

/// Forgetting a session keeps the vault and its queue holding the journal.
pub proof fn forgetting_holds_the_journal(
    v: Vault,
    ws: Seq<WriteModel>,
    journal: Map<Seq<u8>, DurableSession>,
    id: Seq<u8>,
)
    requires
        holds_the_journal(v, ws, journal),
    ensures
        holds_the_journal(v, ws.push(forgotten(id)), journal.remove(id)),
{
    let after = journal.remove(id);
    let next = sessions_after(v, ws.push(forgotten(id)));
    assert(ws.push(forgotten(id)).drop_last() =~= ws);
    assert(next == sessions_after(v, ws).remove(hex_text(id)));
    assert forall|k: Seq<u8>| #[trigger] after.contains_key(k) implies next.contains_key(hex_text(k))
        && next[hex_text(k)] == session_octets(after[k]) by {
        assert(journal.contains_key(k));
        if hex_text(k) == hex_text(id) {
            session_keys_are_distinct(k, id);
        }
    }
    assert forall|key: Seq<char>| #[trigger] next.contains_key(key) implies exists|k: Seq<u8>|
     #[trigger] after.contains_key(k) && hex_text(k) == key by {
        assert(sessions_after(v, ws).contains_key(key));
        let k = choose|k: Seq<u8>| #[trigger] journal.contains_key(k) && hex_text(k) == key;
        assert(after.contains_key(k));
    }
    assert forall|k: Seq<u8>| #[trigger] after.contains_key(k) implies after[k].session_id.bytes@
        == k && k.len() == 16 by {
        assert(journal.contains_key(k));
    }
}

/// A write of anything else keeps the vault and its queue holding the journal.
pub proof fn other_writes_hold_the_journal(
    v: Vault,
    ws: Seq<WriteModel>,
    journal: Map<Seq<u8>, DurableSession>,
    w: WriteModel,
)
    requires
        holds_the_journal(v, ws, journal),
        !(w is Session),
    ensures
        holds_the_journal(v, ws.push(w), journal),
{
    assert(ws.push(w).drop_last() =~= ws);
    assert(sessions_after(v, ws.push(w)) == sessions_after(v, ws));
}

proof fn vault_after_runs(v: Vault, a: Seq<OpModel>, b: Seq<OpModel>)
    ensures
        vault_after(v, a + b) == vault_after(vault_after(v, a), b),
    decreases b.len(),
{
    if b.len() == 0 {
        assert(a + b =~= a);
    } else {
        vault_after_runs(v, a, b.drop_last());
        assert((a + b).drop_last() =~= a + b.drop_last());
        assert((a + b).last() == b.last());
    }
}

proof fn one_step_lands(v: Vault, op: OpModel)
    ensures
        vault_after(v, seq![op]) == vault_step(v, op),
{
    assert(seq![op].drop_last() =~= Seq::<OpModel>::empty());
    assert(vault_after(v, seq![op].drop_last()) == v);
}

proof fn one_write_lands(v: Vault, w: WriteModel, rec_seq: int)
    ensures
        vault_after(v, staged(w, rec_seq)) == sessions_after(v, seq![w]),
{
    let ops = staged(w, rec_seq);
    assert(seq![w].drop_last() =~= Seq::<WriteModel>::empty());
    assert(sessions_after(v, seq![w].drop_last()) == v);
    one_step_lands(v, ops[0]);
    match w {
        WriteModel::TrustEpoch { .. } => {
            assert(ops =~= seq![ops[0]] + seq![ops[1]]);
            vault_after_runs(v, seq![ops[0]], seq![ops[1]]);
            one_step_lands(v, ops[1]);
        },
        WriteModel::Document { .. } => {
            assert(ops =~= seq![ops[0]] + seq![ops[1]] + seq![ops[2]]);
            vault_after_runs(v, seq![ops[0]] + seq![ops[1]], seq![ops[2]]);
            vault_after_runs(v, seq![ops[0]], seq![ops[1]]);
            one_step_lands(v, ops[1]);
            one_step_lands(v, ops[2]);
        },
        WriteModel::Session { key, value } => {
            assert(ops =~= seq![ops[0]]);
        },
        _ => {
            assert(ops =~= seq![ops[0]]);
        },
    }
}

proof fn sessions_after_runs(v: Vault, a: Seq<WriteModel>, b: Seq<WriteModel>)
    ensures
        sessions_after(v, a + b) == sessions_after(sessions_after(v, a), b),
    decreases b.len(),
{
    if b.len() == 0 {
        assert(a + b =~= a);
    } else {
        sessions_after_runs(v, a, b.drop_last());
        assert((a + b).drop_last() =~= a + b.drop_last());
        assert((a + b).last() == b.last());
    }
}

/// The transaction that a flush commits leaves the vault with exactly what was queued for
/// its session records.
pub proof fn a_flush_lands(v: Vault, ws: Seq<WriteModel>, base: int)
    ensures
        vault_after(v, staged_all(ws, base)) == sessions_after(v, ws),
    decreases ws.len(),
{
    if ws.len() > 0 {
        let front = ws.drop_last();
        a_flush_lands(v, front, base);
        vault_after_runs(v, staged_all(front, base), staged(ws.last(), base + ws.len()));
        one_write_lands(sessions_after(v, front), ws.last(), base + ws.len());
        sessions_after_runs(v, front, seq![ws.last()]);
        assert(front + seq![ws.last()] =~= ws);
    }
}

/// Committing the oldest queued writes keeps the vault and the rest of the queue holding
/// the journal.
pub proof fn flushing_holds_the_journal(
    v: Vault,
    ws: Seq<WriteModel>,
    journal: Map<Seq<u8>, DurableSession>,
    count: int,
    base: int,
)
    requires
        holds_the_journal(v, ws, journal),
        0 <= count <= ws.len(),
    ensures
        holds_the_journal(vault_after(v, staged_all(ws.take(count), base)), ws.skip(count), journal),
{
    a_flush_lands(v, ws.take(count), base);
    sessions_after_runs(v, ws.take(count), ws.skip(count));
    assert(ws.take(count) + ws.skip(count) =~= ws);
}

/// `held` are the session records of a vault.
#[verifier::opaque]
pub open spec fn lists_the_vault(v: Vault, held: Seq<Vec<u8>>) -> bool {
    &&& forall|key: Seq<char>| #[trigger]
        v.contains_key(key) ==> exists|i: int|
            0 <= i < held.len() && (#[trigger] held[i])@ == v[key]
    &&& forall|i: int|
        0 <= i < held.len() ==> exists|key: Seq<char>| #[trigger]
            v.contains_key(key) && v[key] == (#[trigger] held[i])@
}

/// A record is what is left of `r` after a restart.
pub open spec fn comes_back(r: DurableSession, back: DurableSession) -> bool {
    &&& back.session_id == r.session_id
    &&& back.peer == r.peer
    &&& back.last_state == r.last_state
    &&& back.last_reason is Some == r.last_reason is Some
    &&& r.last_reason is Some ==> back.last_reason->0.name() == r.last_reason->0.name()
}

proof fn a_held_record_is_the_journals(
    v: Vault,
    journal: Map<Seq<u8>, DurableSession>,
    held: Seq<Vec<u8>>,
    i: int,
) -> (id: Seq<u8>)
    requires
        holds_the_journal(v, Seq::empty(), journal),
        lists_the_vault(v, held),
        0 <= i < held.len(),
    ensures
        journal.contains_key(id),
        journal[id].session_id.bytes@ == id,
        held[i]@ == session_octets(journal[id]),
{
    reveal(lists_the_vault);
    assert(sessions_after(v, Seq::empty()) == v);
    let s = held[i];
    let key = choose|key: Seq<char>| #[trigger] v.contains_key(key) && v[key] == s@;
    choose|id: Seq<u8>| #[trigger] journal.contains_key(id) && hex_text(id) == key
}

proof fn a_known_session_is_held(
    v: Vault,
    journal: Map<Seq<u8>, DurableSession>,
    held: Seq<Vec<u8>>,
    id: Seq<u8>,
) -> (i: int)
    requires
        holds_the_journal(v, Seq::empty(), journal),
        lists_the_vault(v, held),
        journal.contains_key(id),
    ensures
        0 <= i < held.len(),
        held[i]@ == session_octets(journal[id]),
{
    reveal(lists_the_vault);
    assert(sessions_after(v, Seq::empty()) == v);
    let key = hex_text(id);
    assert(v.contains_key(key));
    choose|i: int| 0 <= i < held.len() && (#[trigger] held[i])@ == v[key]
}

proof fn a_record_comes_back(
    r: DurableSession,
    registered: Seq<&'static str>,
    back: DurableSession,
)
    requires
        keeps_its_reason(r, registered),
        says(session_octets(r), registered, back),
    ensures
        comes_back(r, back),
{
    a_session_record_survives_the_vault(r, registered, back);
}

/// The restart law. Once what was queued is durable, hydrating a new process from the
/// records of the vault never fails, and gives back the journal: the same sessions, each
/// with its peer, its state and its reason.
pub proof fn a_restart_brings_the_journal_back(
    v: Vault,
    journal: Map<Seq<u8>, DurableSession>,
    held: Seq<Vec<u8>>,
    registered: Seq<&'static str>,
    list: Seq<DurableSession>,
)
    requires
        holds_the_journal(v, Seq::empty(), journal),
        lists_the_vault(v, held),
        forall|id: Seq<u8>| #[trigger]
            journal.contains_key(id) ==> keeps_its_reason(journal[id], registered),
    ensures
        all_decode(held),
        read_all(held, registered, list) ==> {
            &&& remembered(restored_map(list), Seq::empty()) == restored_map(list)
            &&& restored_map(list).dom() == journal.dom()
            &&& forall|id: Seq<u8>| #[trigger]
                journal.contains_key(id) ==> comes_back(journal[id], restored_map(list)[id])
        },
{
    assert forall|i: int| 0 <= i < held.len() implies crate::journal::decodes(
        (#[trigger] held[i])@,
    ) by {
        let id = a_held_record_is_the_journals(v, journal, held, i);
        a_written_session_record_decodes(journal[id]);
    }
    if read_all(held, registered, list) {
        let map = restored_map(list);
        assert forall|i: int| 0 <= i < list.len() implies journal.contains_key(
            (#[trigger] list[i]).session_id.bytes@,
        ) && comes_back(journal[list[i].session_id.bytes@], list[i]) by {
            let id = a_held_record_is_the_journals(v, journal, held, i);
            assert(says(held[i]@, registered, list[i]));
            a_record_comes_back(journal[id], registered, list[i]);
        }
        assert forall|id: Seq<u8>| #[trigger] journal.contains_key(id) implies map.contains_key(id)
            && comes_back(journal[id], map[id]) by {
            let i = a_known_session_is_held(v, journal, held, id);
            assert(says(held[i]@, registered, list[i]));
            a_record_comes_back(journal[id], registered, list[i]);
            a_restored_record_was_listed(list, id);
            assert(list[i].session_id.bytes@ == id);
            let k = choose|k: int|
                0 <= k < list.len() && #[trigger] list[k] == map[id] && list[k].session_id.bytes@
                    == id;
            assert(comes_back(journal[list[k].session_id.bytes@], list[k]));
        }
        assert forall|id: Seq<u8>| #[trigger] map.contains_key(id) implies journal.contains_key(
            id,
        ) by {
            a_restored_record_was_listed(list, id);
            let k = choose|k: int|
                0 <= k < list.len() && #[trigger] list[k] == map[id] && list[k].session_id.bytes@
                    == id;
            assert(journal.contains_key(list[k].session_id.bytes@));
        }
        assert(map.dom() =~= journal.dom());
        assert(remembered(map, Seq::empty()) =~= map);
    }
}

/// A session that was forgotten does not come back: while its removal is queued no record
/// of the store is taken for it.
pub proof fn a_forgotten_session_stays_gone(
    journal: Map<Seq<u8>, DurableSession>,
    ws: Seq<WriteModel>,
    held: Map<Seq<u8>, DurableSession>,
    id: Seq<u8>,
)
    ensures
        !remembered(held, ws.push(forgotten(id))).union_prefer_right(
            journal.remove(id),
        ).contains_key(id),
{
    let queue = ws.push(forgotten(id));
    assert(queue[ws.len() as int] == forgotten(id));
    assert(is_forgotten(queue, id));
}

/// A session that comes back is wanted back, unless it was not wanted: whatever its
/// machine reports, it stands where its record resumes.
pub proof fn a_session_that_comes_back_is_wanted_back(
    m: CoreModel,
    r: DurableSession,
    back: DurableSession,
    machine: MachineReport,
)
    requires
        comes_back(r, back),
    ensures
        ({
            let resumed = m.with_session(
                SessionModel::fresh(
                    back.session_id,
                    back.peer,
                    resumed_report(back, machine),
                ),
            );
            &&& resumed.state_of(r.session_id) == Some(resumes_in(r.last_state))
            &&& r.last_state != SessionState::Disconnected ==> resumed.state_of(r.session_id)
                == Some(SessionState::Reconnecting { parked: false })
        }),
{
}

} // verus!
