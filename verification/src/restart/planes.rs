//! What a restart brings back of the control plane: every cursor, trust epoch, document,
//! peer and causality token that was queued becomes the vault's, and reads in the next
//! process as it was written.

use vstd::prelude::*;

use crate::bridge::{a_peer_record_survives_the_vault, all_read, facts_of, ops_view, peer_octets,
    ports_present, staged, staged_all, CommitOutcome, FlushPlan, HeldFact, HeldModel, NameModel,
    Namespace, OpModel};
use crate::instance::CoreModel;
use crate::octets::{be64, be64_round_trip};
use crate::planes::{nothing_admitted, PeerModel, PlanesModel, WriteModel};
use crate::types::DeviceId;
use crate::vault::planes_hydrated;

verus! {

/// Where a record stands in a vault.
pub type Place = (Namespace, NameModel);

/// The records of a vault.
pub type Records = Map<Place, Seq<u8>>;

/// The records of a vault after one step of a transaction. A floor is no record.
pub open spec fn records_step(v: Records, op: OpModel) -> Records {
    match op {
        OpModel::Write { namespace, name, value, .. } => v.insert((namespace, name), value),
        OpModel::Delete { namespace, name } => v.remove((namespace, name)),
        OpModel::AdvanceFloor { .. } => v,
    }
}

/// The records of a vault after a transaction was committed.
pub open spec fn records_after(v: Records, ops: Seq<OpModel>) -> Records
    decreases ops.len(),
{
    if ops.len() == 0 {
        v
    } else {
        records_step(records_after(v, ops.drop_last()), ops.last())
    }
}

/// The records of a vault once a write is durable.
pub open spec fn written(v: Records, w: WriteModel) -> Records {
    match w {
        WriteModel::Cursor { twinnet, net_seq } => v.insert(
            (Namespace::Doc, NameModel::Cursor(twinnet)),
            be64(net_seq),
        ),
        WriteModel::TrustEpoch { twinnet, epoch } => v.insert(
            (Namespace::Trust, NameModel::Epoch(twinnet)),
            be64(epoch),
        ),
        WriteModel::Document { twinnet, doc_type, version, payload, .. } => v.insert(
            (Namespace::Doc, NameModel::Document(doc_type, twinnet)),
            payload,
        ).insert((Namespace::Doc, NameModel::DocumentVersion(doc_type, twinnet)), be64(version)),
        WriteModel::Peer { twinnet, device_id, record } => v.insert(
            (Namespace::Peer, NameModel::Peer(twinnet, device_id)),
            peer_octets(record),
        ),
        WriteModel::PeerRemoved { twinnet, device_id, .. } => v.remove(
            (Namespace::Peer, NameModel::Peer(twinnet, device_id)),
        ),
        WriteModel::Session { key, value: Some(bytes) } => v.insert(
            (Namespace::Session, NameModel::Session(key)),
            bytes,
        ),
        WriteModel::Session { key, value: None } => v.remove(
            (Namespace::Session, NameModel::Session(key)),
        ),
        WriteModel::CausalityToken { twinnet, token } => v.insert(
            (Namespace::Doc, NameModel::Causality(twinnet)),
            token,
        ),
    }
}

/// The records of a vault once these writes are durable.
pub open spec fn all_written(v: Records, ws: Seq<WriteModel>) -> Records
    decreases ws.len(),
{
    if ws.len() == 0 {
        v
    } else {
        written(all_written(v, ws.drop_last()), ws.last())
    }
}

/// The record that stands at a place for what the cache knows, if any does. Sessions are
/// not the cache's.
pub open spec fn record_of(m: PlanesModel, at: Place) -> Option<Seq<u8>> {
    match at {
        (Namespace::Doc, NameModel::Cursor(t)) => if m.cursor.contains_key(t) {
            Some(be64(m.cursor[t]))
        } else {
            None
        },
        (Namespace::Trust, NameModel::Epoch(t)) => if m.trust_epoch.contains_key(t) {
            Some(be64(m.trust_epoch[t]))
        } else {
            None
        },
        (Namespace::Doc, NameModel::Document(d, t)) => if m.documents.contains_key((t, d)) {
            Some(m.documents[(t, d)].payload)
        } else {
            None
        },
        (Namespace::Doc, NameModel::DocumentVersion(d, t)) => if m.documents.contains_key((t, d)) {
            Some(be64(m.documents[(t, d)].version))
        } else {
            None
        },
        (Namespace::Peer, NameModel::Peer(t, device)) => if m.peers.contains_key(
            (t, device.bytes@),
        ) {
            Some(peer_octets(m.peers[(t, device.bytes@)]))
        } else {
            None
        },
        (Namespace::Doc, NameModel::Causality(t)) => if m.causality.contains_key(t) {
            Some(m.causality[t])
        } else {
            None
        },
        _ => None,
    }
}

/// At this place the vault holds what the cache knows, and nothing where it knows nothing.
pub open spec fn agrees_at(v: Records, m: PlanesModel, at: Place) -> bool {
    match record_of(m, at) {
        Some(value) => v.contains_key(at) && v[at] == value,
        None => !v.contains_key(at),
    }
}

/// A peer record that the vault gives back whole: each endpoint has a port, their number
/// fits its field, and the overlay address, which is stored without a zone, has none.
pub open spec fn storable(r: PeerModel) -> bool {
    &&& ports_present(r.endpoints)
    &&& r.endpoints.len() <= u32::MAX
    &&& r.overlay.v6.zone == 0
}

/// A write that the vault gives back whole: a peer's record is its own, and storable.
pub open spec fn storable_write(w: WriteModel) -> bool {
    w matches WriteModel::Peer { device_id, record, .. } ==> record.device_id == device_id
        && storable(record)
}

/// The vault and what is queued for it hold the cache: at each place what the cache knows,
/// and nothing else of the control plane.
pub open spec fn holds_the_planes(v: Records, m: PlanesModel) -> bool {
    &&& forall|at: Place|
        !(at.0 is Session) ==> #[trigger] agrees_at(all_written(v, m.pending), m, at)
    &&& forall|k: (Seq<char>, Seq<u8>)| #[trigger]
        m.peers.contains_key(k) ==> m.peers[k].device_id.bytes@ == k.1 && storable(m.peers[k])
}

/// An empty vault holds an empty cache.
pub proof fn an_empty_vault_holds_nothing()
    ensures
        holds_the_planes(Map::empty(), nothing_admitted()),
{
}

proof fn devices_differ_in_their_octets(a: DeviceId, b: DeviceId)
    ensures
        a.bytes@ == b.bytes@ ==> a == b,
{
    if a.bytes@ == b.bytes@ {
        assert(a.bytes =~= b.bytes);
    }
}

/// An accepted write keeps the vault and its queue holding the cache.
pub proof fn accepting_holds_the_planes(v: Records, m: PlanesModel, w: WriteModel)
    requires
        holds_the_planes(v, m),
        storable_write(w),
    ensures
        holds_the_planes(v, m.accepted(w)),
{
    let next = m.accepted(w);
    let before = all_written(v, m.pending);
    assert(m.pending.push(w).drop_last() =~= m.pending);
    assert(all_written(v, next.pending) == written(before, w));
    assert forall|at: Place| !(at.0 is Session) implies #[trigger] agrees_at(
        all_written(v, next.pending),
        next,
        at,
    ) by {
        assert(agrees_at(before, m, at));
        match (w, at) {
            (
                WriteModel::Peer { device_id, .. },
                (Namespace::Peer, NameModel::Peer(_, device)),
            ) => {
                devices_differ_in_their_octets(device_id, device);
            },
            (
                WriteModel::PeerRemoved { device_id, .. },
                (Namespace::Peer, NameModel::Peer(_, device)),
            ) => {
                devices_differ_in_their_octets(device_id, device);
            },
            _ => {},
        }
    }
}

proof fn records_after_runs(v: Records, a: Seq<OpModel>, b: Seq<OpModel>)
    ensures
        records_after(v, a + b) == records_after(records_after(v, a), b),
    decreases b.len(),
{
    if b.len() == 0 {
        assert(a + b =~= a);
    } else {
        records_after_runs(v, a, b.drop_last());
        assert((a + b).drop_last() =~= a + b.drop_last());
        assert((a + b).last() == b.last());
    }
}

proof fn a_staged_write_lands(v: Records, w: WriteModel, rec_seq: int)
    ensures
        records_after(v, staged(w, rec_seq)) == written(v, w),
{
    let ops = staged(w, rec_seq);
    reveal_with_fuel(records_after, 4);
    match w {
        WriteModel::TrustEpoch { .. } => {
            assert(ops.drop_last().drop_last() =~= Seq::<OpModel>::empty());
        },
        WriteModel::Document { .. } => {
            assert(ops.drop_last().drop_last().drop_last() =~= Seq::<OpModel>::empty());
        },
        _ => {
            assert(ops.drop_last() =~= Seq::<OpModel>::empty());
        },
    }
}

/// The transaction that a flush commits leaves the vault with exactly what was queued.
pub proof fn a_flush_lands_whole(v: Records, ws: Seq<WriteModel>, base: int)
    ensures
        records_after(v, staged_all(ws, base)) == all_written(v, ws),
    decreases ws.len(),
{
    if ws.len() > 0 {
        let front = ws.drop_last();
        a_flush_lands_whole(v, front, base);
        records_after_runs(v, staged_all(front, base), staged(ws.last(), base + ws.len()));
        a_staged_write_lands(all_written(v, front), ws.last(), base + ws.len());
    }
}

proof fn all_written_runs(v: Records, a: Seq<WriteModel>, b: Seq<WriteModel>)
    ensures
        all_written(v, a + b) == all_written(all_written(v, a), b),
    decreases b.len(),
{
    if b.len() == 0 {
        assert(a + b =~= a);
    } else {
        all_written_runs(v, a, b.drop_last());
        assert((a + b).drop_last() =~= a + b.drop_last());
        assert((a + b).last() == b.last());
    }
}

/// Committing the oldest queued writes keeps the vault and the rest of the queue holding
/// the cache.
pub proof fn flushing_holds_the_planes(v: Records, m: PlanesModel, count: int, base: int)
    requires
        holds_the_planes(v, m),
        0 <= count <= m.pending.len(),
    ensures
        holds_the_planes(
            records_after(v, staged_all(m.pending.take(count), base)),
            (PlanesModel { pending: m.pending.skip(count), last_refusal: None, ..m }),
        ),
{
    let next = PlanesModel { pending: m.pending.skip(count), last_refusal: None, ..m };
    let landed = records_after(v, staged_all(m.pending.take(count), base));
    a_flush_lands_whole(v, m.pending.take(count), base);
    all_written_runs(v, m.pending.take(count), m.pending.skip(count));
    assert(m.pending.take(count) + m.pending.skip(count) =~= m.pending);
    assert forall|at: Place| !(at.0 is Session) implies #[trigger] agrees_at(
        all_written(landed, next.pending),
        next,
        at,
    ) by {
        assert(agrees_at(all_written(v, m.pending), m, at));
    }
}

/// The records of a fact stand in the vault.
pub open spec fn stands(v: Records, f: HeldModel) -> bool {
    match f {
        HeldModel::Cursor { twinnet, value } => {
            let at = (Namespace::Doc, NameModel::Cursor(twinnet));
            v.contains_key(at) && v[at] == value
        },
        HeldModel::TrustEpoch { twinnet, value } => {
            let at = (Namespace::Trust, NameModel::Epoch(twinnet));
            v.contains_key(at) && v[at] == value
        },
        HeldModel::Document { twinnet, doc_type, version, payload, .. } => {
            let at = (Namespace::Doc, NameModel::Document(doc_type, twinnet));
            let marked = (Namespace::Doc, NameModel::DocumentVersion(doc_type, twinnet));
            v.contains_key(at) && v[at] == payload && v.contains_key(marked) && v[marked] == version
        },
        HeldModel::Peer { twinnet, value } => exists|device: DeviceId|
            stands_as(v, twinnet, device, value),
        HeldModel::CausalityToken { twinnet, token } => {
            let at = (Namespace::Doc, NameModel::Causality(twinnet));
            v.contains_key(at) && v[at] == token
        },
    }
}

/// A peer's record stands in the vault.
pub open spec fn stands_as(
    v: Records,
    twinnet: Seq<char>,
    device: DeviceId,
    value: Seq<u8>,
) -> bool {
    let at = (Namespace::Peer, NameModel::Peer(twinnet, device));
    v.contains_key(at) && v[at] == value
}

/// The record at a place of the vault is this fact's.
pub open spec fn tells(v: Records, f: HeldModel, at: Place) -> bool {
    match (f, at.1) {
        (HeldModel::Cursor { twinnet, .. }, NameModel::Cursor(t)) => twinnet == t,
        (HeldModel::TrustEpoch { twinnet, .. }, NameModel::Epoch(t)) => twinnet == t,
        (HeldModel::Document { twinnet, doc_type, .. }, NameModel::Document(d, t)) => twinnet == t
            && doc_type == d,
        (HeldModel::Document { twinnet, doc_type, .. }, NameModel::DocumentVersion(d, t)) => twinnet
            == t && doc_type == d,
        (HeldModel::Peer { twinnet, value }, NameModel::Peer(t, _)) => twinnet == t && value
            == v[at],
        (HeldModel::CausalityToken { twinnet, .. }, NameModel::Causality(t)) => twinnet == t,
        _ => false,
    }
}

/// Some fact tells the record at a place.
pub open spec fn is_told(v: Records, held: Seq<HeldFact>, at: Place) -> bool {
    exists|i: int| 0 <= i < held.len() && tells(v, (#[trigger] held[i])@, at)
}

/// `held` is what the vault holds of the control plane: only that, and all of it.
pub open spec fn lists_the_facts(v: Records, held: Seq<HeldFact>) -> bool {
    &&& forall|i: int| 0 <= i < held.len() ==> stands(v, (#[trigger] held[i])@)
    &&& forall|at: Place|
        v.contains_key(at) && !(at.0 is Session) ==> #[trigger] is_told(v, held, at)
}

/// The cache knows what the write says; of a document its version and its octets.
pub open spec fn knows(m: PlanesModel, w: WriteModel) -> bool {
    match w {
        WriteModel::Cursor { twinnet, net_seq } => m.cursor.contains_key(twinnet)
            && m.cursor[twinnet] == net_seq,
        WriteModel::TrustEpoch { twinnet, epoch } => m.trust_epoch.contains_key(twinnet)
            && m.trust_epoch[twinnet] == epoch,
        WriteModel::Document { twinnet, doc_type, version, payload, .. } => {
            let k = (twinnet, doc_type);
            m.documents.contains_key(k) && m.documents[k].version == version
                && m.documents[k].payload == payload
        },
        WriteModel::Peer { twinnet, device_id, record } => {
            let k = (twinnet, device_id.bytes@);
            m.peers.contains_key(k) && m.peers[k] == record
        },
        WriteModel::CausalityToken { twinnet, token } => m.causality.contains_key(twinnet)
            && m.causality[twinnet] == token,
        _ => false,
    }
}

/// All that `a` knows `b` knows too, and alike; of a document its version and its octets.
pub open spec fn knows_no_more(a: PlanesModel, b: PlanesModel) -> bool {
    &&& a.cursor.submap_of(b.cursor)
    &&& a.trust_epoch.submap_of(b.trust_epoch)
    &&& forall|k: (Seq<char>, Seq<char>)| #[trigger]
        a.documents.contains_key(k) ==> {
            &&& b.documents.contains_key(k)
            &&& a.documents[k].version == b.documents[k].version
            &&& a.documents[k].payload == b.documents[k].payload
        }
    &&& a.peers.submap_of(b.peers)
    &&& a.causality.submap_of(b.causality)
}

/// Both caches know the same of each twinnet: its cursor, its trust epoch, its causality
/// token, its peers, and of its documents the version and the octets.
pub open spec fn reads_alike(a: PlanesModel, b: PlanesModel) -> bool {
    &&& a.cursor == b.cursor
    &&& a.trust_epoch == b.trust_epoch
    &&& a.causality == b.causality
    &&& a.peers == b.peers
    &&& a.documents.dom() == b.documents.dom()
    &&& forall|k: (Seq<char>, Seq<char>)| #[trigger]
        b.documents.contains_key(k) ==> {
            &&& a.documents[k].version == b.documents[k].version
            &&& a.documents[k].payload == b.documents[k].payload
        }
}

/// The digest that came with each document is the one that it was admitted with.
pub open spec fn digests_agree(ws: Seq<WriteModel>, m: PlanesModel) -> bool {
    forall|i: int|
        0 <= i < ws.len() ==> ((#[trigger] ws[i]) matches WriteModel::Document {
            twinnet,
            doc_type,
            content_digest,
            ..
        } ==> m.documents[(twinnet, doc_type)].content_digest == content_digest)
}

proof fn known_facts_are_taken_back(m: PlanesModel, ws: Seq<WriteModel>)
    requires
        forall|i: int| 0 <= i < ws.len() ==> knows(m, #[trigger] ws[i]),
    ensures
        ({
            let after = nothing_admitted().all_taken_back(ws);
            &&& after.pending == Seq::<WriteModel>::empty()
            &&& after.last_refusal is None
            &&& knows_no_more(after, m)
            &&& forall|i: int| 0 <= i < ws.len() ==> knows(after, #[trigger] ws[i])
            &&& digests_agree(ws, m) ==> after.documents.submap_of(m.documents)
        }),
    decreases ws.len(),
{
    if ws.len() > 0 {
        let front = ws.drop_last();
        let w = ws.last();
        let mid = nothing_admitted().all_taken_back(front);
        let after = nothing_admitted().all_taken_back(ws);
        assert forall|i: int| 0 <= i < front.len() implies knows(m, #[trigger] front[i]) by {
            assert(front[i] == ws[i]);
        }
        known_facts_are_taken_back(m, front);
        assert(knows(m, ws[ws.len() - 1]));
        assert(knows(after, w));
        assert forall|i: int| 0 <= i < ws.len() implies knows(after, #[trigger] ws[i]) by {
            if i < front.len() {
                assert(ws[i] == front[i]);
                assert(knows(mid, front[i]));
                assert(knows(m, ws[i]));
            }
        }
        if digests_agree(ws, m) {
            assert forall|i: int| 0 <= i < front.len() implies ((#[trigger] front[i]) matches
                WriteModel::Document { twinnet, doc_type, content_digest, .. }
                ==> m.documents[(twinnet, doc_type)].content_digest == content_digest) by {
                assert(front[i] == ws[i]);
            }
            assert(digests_agree(front, m));
        }
    }
}

/// A fact whose records stand in a vault that holds the cache reads as what the cache
/// knows.
proof fn a_standing_fact_is_known(v: Records, m: PlanesModel, f: HeldModel)
    requires
        holds_the_planes(v, m),
        m.pending.len() == 0,
        stands(v, f),
    ensures
        f.read() is Some,
        knows(m, f.read()->0),
{
    assert(all_written(v, m.pending) == v);
    match f {
        HeldModel::Cursor { twinnet, .. } => {
            assert(agrees_at(v, m, (Namespace::Doc, NameModel::Cursor(twinnet))));
            be64_round_trip(m.cursor[twinnet]);
        },
        HeldModel::TrustEpoch { twinnet, .. } => {
            assert(agrees_at(v, m, (Namespace::Trust, NameModel::Epoch(twinnet))));
            be64_round_trip(m.trust_epoch[twinnet]);
        },
        HeldModel::Document { twinnet, doc_type, .. } => {
            assert(agrees_at(v, m, (Namespace::Doc, NameModel::Document(doc_type, twinnet))));
            assert(agrees_at(v, m, (Namespace::Doc, NameModel::DocumentVersion(doc_type, twinnet))));
            be64_round_trip(m.documents[(twinnet, doc_type)].version);
        },
        HeldModel::Peer { twinnet, value } => {
            let device = choose|device: DeviceId| stands_as(v, twinnet, device, value);
            assert(agrees_at(v, m, (Namespace::Peer, NameModel::Peer(twinnet, device))));
            let record = m.peers[(twinnet, device.bytes@)];
            assert(m.peers.contains_key((twinnet, device.bytes@)));
            a_peer_record_survives_the_vault(record, Seq::empty());
            assert(peer_octets(record) + Seq::<u8>::empty() =~= peer_octets(record));
        },
        HeldModel::CausalityToken { twinnet, .. } => {
            assert(agrees_at(v, m, (Namespace::Doc, NameModel::Causality(twinnet))));
        },
    }
}

/// What the cache knows at a place is told by some fact, and so read.
proof fn a_known_record_is_read(v: Records, m: PlanesModel, held: Seq<HeldFact>, at: Place) -> (i:
    int)
    requires
        holds_the_planes(v, m),
        m.pending.len() == 0,
        lists_the_facts(v, held),
        !(at.0 is Session),
        record_of(m, at) is Some,
    ensures
        0 <= i < held.len(),
        tells(v, held[i]@, at),
        v.contains_key(at),
        v[at] == record_of(m, at)->0,
        facts_of(held)[i] == held[i]@.read()->0,
        held[i]@.read() is Some,
        knows(m, held[i]@.read()->0),
{
    assert(all_written(v, m.pending) == v);
    assert(agrees_at(v, m, at));
    assert(is_told(v, held, at));
    let i = choose|i: int| 0 <= i < held.len() && tells(v, (#[trigger] held[i])@, at);
    a_standing_fact_is_known(v, m, held[i]@);
    i
}

/// The restart law of the control plane. Once what was queued is durable, a new process
/// that is handed the facts of the vault reads them all, and then knows exactly what was
/// known: each cursor, trust epoch, peer and causality token as it was written, and each
/// document with its version and its octets. The digest of a document's content is not
/// in the vault: it is the one that was handed over with it. The vault holds what is then
/// known, so that it comes back the next time too.
pub proof fn a_restart_brings_the_planes_back(v: Records, m: PlanesModel, held: Seq<HeldFact>)
    requires
        holds_the_planes(v, m),
        m.pending.len() == 0,
        lists_the_facts(v, held),
    ensures
        all_read(held),
        ({
            let after = nothing_admitted().all_taken_back(facts_of(held));
            &&& reads_alike(after, m)
            &&& digests_agree(facts_of(held), m) ==> after.documents == m.documents
            &&& after.pending == Seq::<WriteModel>::empty()
            &&& holds_the_planes(v, after)
        }),
{
    let ws = facts_of(held);
    let after = nothing_admitted().all_taken_back(ws);
    assert(all_written(v, m.pending) == v);
    assert forall|i: int| 0 <= i < held.len() implies (#[trigger] held[i])@.read() is Some by {
        a_standing_fact_is_known(v, m, held[i]@);
    }
    assert forall|i: int| 0 <= i < ws.len() implies knows(m, #[trigger] ws[i]) by {
        assert(stands(v, held[i]@));
        a_standing_fact_is_known(v, m, held[i]@);
    }
    known_facts_are_taken_back(m, ws);
    assert forall|t: Seq<char>| #[trigger] m.cursor.contains_key(t) implies
        after.cursor.contains_key(t) by {
        let i = a_known_record_is_read(v, m, held, (Namespace::Doc, NameModel::Cursor(t)));
        assert(knows(after, ws[i]));
    }
    assert(after.cursor =~= m.cursor);
    assert forall|t: Seq<char>| #[trigger] m.trust_epoch.contains_key(t) implies
        after.trust_epoch.contains_key(t) by {
        let i = a_known_record_is_read(v, m, held, (Namespace::Trust, NameModel::Epoch(t)));
        assert(knows(after, ws[i]));
    }
    assert(after.trust_epoch =~= m.trust_epoch);
    assert forall|t: Seq<char>| #[trigger] m.causality.contains_key(t) implies
        after.causality.contains_key(t) by {
        let i = a_known_record_is_read(v, m, held, (Namespace::Doc, NameModel::Causality(t)));
        assert(knows(after, ws[i]));
    }
    assert(after.causality =~= m.causality);
    assert forall|k: (Seq<char>, Seq<char>)| #[trigger] m.documents.contains_key(k) implies
        after.documents.contains_key(k) by {
        let i = a_known_record_is_read(v, m, held, (Namespace::Doc, NameModel::Document(k.1, k.0)));
        assert(knows(after, ws[i]));
    }
    assert(after.documents.dom() =~= m.documents.dom());
    if digests_agree(ws, m) {
        assert(after.documents =~= m.documents);
    }
    assert forall|k: (Seq<char>, Seq<u8>)| #[trigger] m.peers.contains_key(k) implies
        after.peers.contains_key(k) by {
        let record = m.peers[k];
        let at = (Namespace::Peer, NameModel::Peer(k.0, record.device_id));
        let i = a_known_record_is_read(v, m, held, at);
        a_peer_record_survives_the_vault(record, Seq::empty());
        assert(peer_octets(record) + Seq::<u8>::empty() =~= peer_octets(record));
        assert(knows(after, ws[i]));
    }
    assert(after.peers =~= m.peers);
    assert forall|at: Place| !(at.0 is Session) implies #[trigger] agrees_at(
        all_written(v, after.pending),
        after,
        at,
    ) by {
        assert(agrees_at(v, m, at));
    }
}

/// What a flush made durable comes back after a restart: where the vault and its queue
/// held the cache, and the store committed the whole queue, an instance that opens the
/// store anew reads it all as it was written.
pub proof fn what_was_flushed_comes_back(
    v: Records,
    m: CoreModel,
    plan: FlushPlan,
    held: Seq<HeldFact>,
)
    requires
        holds_the_planes(v, m.planes),
        m.bridge is Some,
        plan.count == m.planes.pending.len(),
        ops_view(plan.ops@) == staged_all(m.planes.pending, m.bridge->0.rec_seq as int),
        lists_the_facts(records_after(v, ops_view(plan.ops@)), held),
    ensures
        ({
            let left = m.flushing().flushed(plan, CommitOutcome::Committed).planes;
            let found = planes_hydrated(nothing_admitted(), held);
            &&& reads_alike(found, left)
            &&& reads_alike(found, m.planes)
            &&& digests_agree(facts_of(held), m.planes) ==> found.documents == m.planes.documents
            &&& holds_the_planes(records_after(v, ops_view(plan.ops@)), found)
        }),
{
    let pending = m.planes.pending;
    let left = m.flushing().flushed(plan, CommitOutcome::Committed).planes;
    flushing_holds_the_planes(v, m.planes, pending.len() as int, m.bridge->0.rec_seq as int);
    assert(pending.take(pending.len() as int) =~= pending);
    assert(left == (PlanesModel {
        pending: pending.skip(pending.len() as int),
        last_refusal: None,
        ..m.planes
    }));
    a_restart_brings_the_planes_back(records_after(v, ops_view(plan.ops@)), left, held);
}

} // verus!
