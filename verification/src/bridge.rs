//! The store bridge: how the queue of pending writes becomes one durable
//! transaction, and the vault encoding of a peer record.

use vstd::prelude::*;

use crate::octets;
use crate::octets::{be16, be16_value, be32, be32_value, be64, be64_value};
use crate::planes::{
    writes_view, PeerModel, PeerRecord, PendingWrite, PlanesModel, Shared,
    WriteModel,
};
use crate::types::{
    join, DeviceId, Endpoint, IpAddr, OverlayAddresses, Port, TwinnetId, V4Addr, V6Addr,
};

verus! {

/// Why a stored record was refused.
#[derive(Debug, Clone, Copy)]
pub enum StoreError {
    /// The record does not decode.
    RecordCorrupt {
        /// The namespace of the record.
        namespace: &'static str,
        /// What noticed.
        detector: &'static str,
    },
}

impl StoreError {
    /// The record that holds a mark is corrupt.
    pub open spec fn corrupt_mark(self, of: Seq<char>) -> bool {
        self matches StoreError::RecordCorrupt { namespace, detector } && namespace@ == of
            && detector@ == "mark length"@
    }

    /// A peer record is corrupt.
    pub open spec fn corrupt_peer(self) -> bool {
        self matches StoreError::RecordCorrupt { namespace, detector } && namespace@ == "peer/"@
            && detector@ == "peer record length or endpoint framing"@
    }
}

/// Where in the vault a record stands.
#[derive(Debug, Clone, Copy, PartialEq, Eq, Structural)]
pub enum Namespace {
    /// Documents, their versions, cursors and causality tokens.
    Doc,
    /// Trust epochs.
    Trust,
    /// Peer records.
    Peer,
    /// Session records.
    Session,
}

/// The name of a record within its namespace.
#[derive(Debug)]
pub enum RecordName {
    /// The cursor of a twinnet.
    Cursor(TwinnetId),
    /// The trust epoch of a twinnet.
    Epoch(TwinnetId),
    /// A document of a twinnet.
    Document(&'static str, TwinnetId),
    /// The version of a document of a twinnet.
    DocumentVersion(&'static str, TwinnetId),
    /// A peer of a twinnet.
    Peer(TwinnetId, DeviceId),
    /// A session.
    Session(String),
    /// The causality token of a twinnet.
    Causality(TwinnetId),
}

/// What a [`RecordName`] says.
pub enum NameModel {
    /// See [`RecordName::Cursor`].
    Cursor(Seq<char>),
    /// See [`RecordName::Epoch`].
    Epoch(Seq<char>),
    /// See [`RecordName::Document`].
    Document(Seq<char>, Seq<char>),
    /// See [`RecordName::DocumentVersion`].
    DocumentVersion(Seq<char>, Seq<char>),
    /// See [`RecordName::Peer`].
    Peer(Seq<char>, DeviceId),
    /// See [`RecordName::Session`].
    Session(Seq<char>),
    /// See [`RecordName::Causality`].
    Causality(Seq<char>),
}

impl NameModel {
    /// The name as the vault spells it. A peer is spelled by the fingerprint of its
    /// identifier.
    pub open spec fn spelled(self, fingerprint: Seq<char>) -> Seq<char> {
        match self {
            NameModel::Cursor(t) => "cursor."@ + t,
            NameModel::Epoch(t) => "epoch."@ + t,
            NameModel::Document(d, t) => d + "."@ + t,
            NameModel::DocumentVersion(d, t) => d + "."@ + t + ".version"@,
            NameModel::Peer(t, _) => t + "."@ + fingerprint,
            NameModel::Session(key) => key,
            NameModel::Causality(t) => "causality."@ + t,
        }
    }
}

impl RecordName {
    /// What the name says.
    pub open spec fn view(self) -> NameModel {
        match self {
            RecordName::Cursor(t) => NameModel::Cursor(t@),
            RecordName::Epoch(t) => NameModel::Epoch(t@),
            RecordName::Document(d, t) => NameModel::Document(d@, t@),
            RecordName::DocumentVersion(d, t) => NameModel::DocumentVersion(d@, t@),
            RecordName::Peer(t, d) => NameModel::Peer(t@, d),
            RecordName::Session(key) => NameModel::Session(key@),
            RecordName::Causality(t) => NameModel::Causality(t@),
        }
    }

    /// The name as the vault spells it; `fingerprint` is that of the peer it names,
    /// and is not read where it names none.
    pub fn text(&self, fingerprint: &str) -> (s: String)
        ensures
            s@ == self@.spelled(fingerprint@),
    {
        match self {
            RecordName::Cursor(t) => join("cursor.", t.as_str()),
            RecordName::Epoch(t) => join("epoch.", t.as_str()),
            RecordName::Document(d, t) => join(join(d, ".").as_str(), t.as_str()),
            RecordName::DocumentVersion(d, t) => join(
                join(join(d, ".").as_str(), t.as_str()).as_str(),
                ".version",
            ),
            RecordName::Peer(t, _) => join(join(t.as_str(), ".").as_str(), fingerprint),
            RecordName::Session(key) => key.clone(),
            RecordName::Causality(t) => join("causality.", t.as_str()),
        }
    }
}

/// A monotone floor of the vault.
#[derive(Debug, Clone, Copy)]
pub enum FloorId {
    /// The trust epoch.
    TrustEpoch,
    /// The version of a type of document.
    DocVersion(&'static str),
}

/// What a [`FloorId`] says.
pub enum FloorModel {
    /// See [`FloorId::TrustEpoch`].
    TrustEpoch,
    /// See [`FloorId::DocVersion`].
    DocVersion(Seq<char>),
}

/// One step of a transaction.
#[derive(Debug)]
pub enum TxOp {
    /// Writes a record.
    Write {
        /// Where it stands.
        namespace: Namespace,
        /// Its name.
        name: RecordName,
        /// Its value.
        value: Vec<u8>,
        /// The value is the received octets of a signed statement.
        verbatim_signed: bool,
        /// The record's sequence number.
        rec_seq: u64,
    },
    /// Deletes a record.
    Delete {
        /// Where it stands.
        namespace: Namespace,
        /// Its name.
        name: RecordName,
    },
    /// Raises a floor.
    AdvanceFloor {
        /// Which floor.
        floor: FloorId,
        /// To what.
        to: u64,
    },
}

/// What a [`TxOp`] says.
pub enum OpModel {
    /// See [`TxOp::Write`].
    Write {
        namespace: Namespace,
        name: NameModel,
        value: Seq<u8>,
        verbatim_signed: bool,
        rec_seq: int,
    },
    /// See [`TxOp::Delete`].
    Delete { namespace: Namespace, name: NameModel },
    /// See [`TxOp::AdvanceFloor`].
    AdvanceFloor { floor: FloorModel, to: u64 },
}

impl TxOp {
    /// What the step says.
    pub open spec fn view(self) -> OpModel {
        match self {
            TxOp::Write { namespace, name, value, verbatim_signed, rec_seq } => OpModel::Write {
                namespace,
                name: name@,
                value: value@,
                verbatim_signed,
                rec_seq: rec_seq as int,
            },
            TxOp::Delete { namespace, name } => OpModel::Delete { namespace, name: name@ },
            TxOp::AdvanceFloor { floor, to } => OpModel::AdvanceFloor {
                floor: match floor {
                    FloorId::TrustEpoch => FloorModel::TrustEpoch,
                    FloorId::DocVersion(d) => FloorModel::DocVersion(d@),
                },
                to,
            },
        }
    }
}

/// What a run of steps says.
pub open spec fn ops_view(ops: Seq<TxOp>) -> Seq<OpModel> {
    ops.map_values(|op: TxOp| op@)
}

/// A plain record of a namespace.
pub open spec fn plain(namespace: Namespace, name: NameModel, value: Seq<u8>, rec_seq: int) -> OpModel {
    OpModel::Write { namespace, name, value, verbatim_signed: false, rec_seq }
}

/// The steps that make one write durable.
pub open spec fn staged(w: WriteModel, rec_seq: int) -> Seq<OpModel> {
    match w {
        WriteModel::Cursor { twinnet, net_seq } => seq![
            plain(Namespace::Doc, NameModel::Cursor(twinnet), be64(net_seq), rec_seq),
        ],
        WriteModel::TrustEpoch { twinnet, epoch } => seq![
            plain(Namespace::Trust, NameModel::Epoch(twinnet), be64(epoch), rec_seq),
            OpModel::AdvanceFloor { floor: FloorModel::TrustEpoch, to: epoch },
        ],
        WriteModel::Document { twinnet, doc_type, version, payload, .. } => seq![
            OpModel::AdvanceFloor { floor: FloorModel::DocVersion(doc_type), to: version },
            OpModel::Write {
                namespace: Namespace::Doc,
                name: NameModel::Document(doc_type, twinnet),
                value: payload,
                verbatim_signed: true,
                rec_seq,
            },
            plain(
                Namespace::Doc,
                NameModel::DocumentVersion(doc_type, twinnet),
                be64(version),
                rec_seq,
            ),
        ],
        WriteModel::Peer { twinnet, device_id, record } => seq![
            plain(
                Namespace::Peer,
                NameModel::Peer(twinnet, device_id),
                peer_octets(record),
                rec_seq,
            ),
        ],
        WriteModel::PeerRemoved { twinnet, device_id, .. } => seq![
            OpModel::Delete {
                namespace: Namespace::Peer,
                name: NameModel::Peer(twinnet, device_id),
            },
        ],
        WriteModel::Session { key, value } => match value {
            Some(bytes) => seq![
                plain(Namespace::Session, NameModel::Session(key), bytes, rec_seq),
            ],
            None => seq![
                OpModel::Delete { namespace: Namespace::Session, name: NameModel::Session(key) },
            ],
        },
        WriteModel::CausalityToken { twinnet, token } => seq![
            plain(Namespace::Doc, NameModel::Causality(twinnet), token, rec_seq),
        ],
    }
}

/// The steps that make a queue durable: those of each write in turn, the `i`-th
/// under the `i`-th sequence number after `base`.
pub open spec fn staged_all(ws: Seq<WriteModel>, base: int) -> Seq<OpModel>
    decreases ws.len(),
{
    if ws.len() == 0 {
        Seq::empty()
    } else {
        staged_all(ws.drop_last(), base) + staged(ws.last(), base + ws.len())
    }
}

/// What to commit, and how many writes it stands for.
#[derive(Debug)]
pub struct FlushPlan {
    /// The steps of the one transaction.
    pub ops: Vec<TxOp>,
    /// How many of the oldest pending writes it makes durable.
    pub count: usize,
}

/// How the store answered a transaction.
#[derive(Debug)]
pub enum CommitOutcome {
    /// It is durable.
    Committed,
    /// A monotone floor refused to go down; the store's own words.
    FloorWouldDecrease(String),
    /// The name of a record was refused before anything was committed.
    NameRefused {
        /// Which write it belonged to, counted from the oldest.
        at: usize,
    },
    /// Anything else.
    Failed,
}

/// Why a flush made nothing durable.
#[derive(Debug, Clone, Copy, PartialEq, Eq, Structural)]
pub enum FlushError {
    /// A monotone floor refused to go down.
    FloorWouldDecrease,
    /// The name of a record was refused.
    NameRefused,
    /// The commit failed.
    Failed,
}

/// The single owner of the vault: its sequence of records and its flushes.
#[derive(Debug)]
pub struct StoreBridge {
    /// The last sequence number that was given to a record.
    pub rec_seq: u64,
    /// How many flushes made something durable.
    pub flushes: u64,
}

impl StoreBridge {
    /// The bridge over a store that was opened at `store_seq`.
    #[must_use]
    pub fn new(store_seq: u64) -> (b: Self)
        ensures
            b.rec_seq == store_seq,
            b.flushes == 0,
    {
        StoreBridge { rec_seq: store_seq, flushes: 0 }
    }

    /// How many flushes made something durable.
    #[must_use]
    pub fn flushes(&self) -> (n: u64)
        ensures
            n == self.flushes,
    {
        self.flushes
    }

    /// Appends the steps that make one write durable.
    fn stage(&self, ops: &mut Vec<TxOp>, write: &PendingWrite)
        ensures
            ops_view(final(ops)@) == ops_view(old(ops)@) + staged(write@, self.rec_seq as int),
    {
        match write {
            PendingWrite::Cursor { twinnet, net_seq } => {
                ops.push(
                    self.record(Namespace::Doc, RecordName::Cursor(twinnet.clone()), be64_vec(*net_seq)),
                );
            },
            PendingWrite::TrustEpoch { twinnet, epoch } => {
                ops.push(
                    self.record(Namespace::Trust, RecordName::Epoch(twinnet.clone()), be64_vec(*epoch)),
                );
                ops.push(TxOp::AdvanceFloor { floor: FloorId::TrustEpoch, to: *epoch });
            },
            PendingWrite::Document { twinnet, doc_type, version, payload, .. } => {
                ops.push(TxOp::AdvanceFloor { floor: FloorId::DocVersion(*doc_type), to: *version });
                ops.push(
                    TxOp::Write {
                        namespace: Namespace::Doc,
                        name: RecordName::Document(*doc_type, twinnet.clone()),
                        value: octets::to_vec(payload.as_slice()),
                        verbatim_signed: true,
                        rec_seq: self.rec_seq,
                    },
                );
                ops.push(
                    self.record(
                        Namespace::Doc,
                        RecordName::DocumentVersion(*doc_type, twinnet.clone()),
                        be64_vec(*version),
                    ),
                );
            },
            PendingWrite::Peer { twinnet, device_id, record } => {
                ops.push(
                    self.record(
                        Namespace::Peer,
                        RecordName::Peer(twinnet.clone(), *device_id),
                        encode_peer(record),
                    ),
                );
            },
            PendingWrite::PeerRemoved { twinnet, device_id, .. } => {
                ops.push(
                    TxOp::Delete {
                        namespace: Namespace::Peer,
                        name: RecordName::Peer(twinnet.clone(), *device_id),
                    },
                );
            },
            PendingWrite::Session { key, value } => {
                match value {
                    Some(bytes) => {
                        ops.push(
                            self.record(
                                Namespace::Session,
                                RecordName::Session(key.clone()),
                                octets::to_vec(bytes.as_slice()),
                            ),
                        );
                    },
                    None => {
                        ops.push(
                            TxOp::Delete {
                                namespace: Namespace::Session,
                                name: RecordName::Session(key.clone()),
                            },
                        );
                    },
                }
            },
            PendingWrite::CausalityToken { twinnet, token } => {
                ops.push(
                    self.record(
                        Namespace::Doc,
                        RecordName::Causality(twinnet.clone()),
                        octets::to_vec(token.as_slice()),
                    ),
                );
            },
        }
        assert(ops_view(ops@) =~= ops_view(old(ops)@) + staged(write@, self.rec_seq as int));
    }

    fn record(&self, namespace: Namespace, name: RecordName, value: Vec<u8>) -> (op: TxOp)
        ensures
            op@ == plain(namespace, name@, value@, self.rec_seq as int),
    {
        TxOp::Write { namespace, name, value, verbatim_signed: false, rec_seq: self.rec_seq }
    }

    /// Stages the whole queue as one transaction; `None` when nothing is queued.
    #[must_use]
    pub fn flush_begin(&mut self, shared: &Shared) -> (plan: Option<FlushPlan>)
        requires
            old(self).rec_seq + shared@.pending.len() <= u64::MAX,
        ensures
            final(self).flushes == old(self).flushes,
            final(self).rec_seq == old(self).rec_seq + shared@.pending.len(),
            match plan {
                None => shared@.pending.len() == 0,
                Some(plan) => {
                    &&& shared@.pending.len() > 0
                    &&& plan.count == shared@.pending.len()
                    &&& ops_view(plan.ops@) == staged_all(
                        shared@.pending,
                        old(self).rec_seq as int,
                    )
                },
            },
    {
        let count: usize = shared.pending.len();
        if count == 0 {
            return None;
        }
        let ghost base = self.rec_seq as int;
        let ghost ws = shared@.pending;
        let mut ops: Vec<TxOp> = Vec::new();
        let mut i: usize = 0;
        assert(ws.take(0) =~= Seq::<WriteModel>::empty());
        assert(ops_view(ops@) =~= Seq::<OpModel>::empty());
        while i < count
            invariant
                i <= count == shared.pending@.len(),
                ws == writes_view(shared.pending@),
                base + ws.len() <= u64::MAX,
                self.rec_seq == base + i,
                self.flushes == old(self).flushes,
                ops_view(ops@) == staged_all(ws.take(i as int), base),
            decreases count - i,
        {
            self.rec_seq += 1;
            self.stage(&mut ops, &shared.pending[i]);
            proof {
                let next = ws.take(i + 1);
                assert(next.drop_last() =~= ws.take(i as int));
                assert(next.last() == shared.pending@[i as int]@);
            }
            i += 1;
        }
        assert(ws.take(count as int) =~= ws);
        Some(FlushPlan { ops, count })
    }

    /// Takes the store's answer to a plan. A commit drops what it made durable. A
    /// floor that refuses is a control at work: what it refused is dropped too, and
    /// the refusal is published where the data plane sees it. On any other failure
    /// the queue is left intact.
    pub fn flush_finish(
        &mut self,
        shared: &mut Shared,
        plan: &FlushPlan,
        outcome: CommitOutcome,
    ) -> (r: Result<usize, FlushError>)
        requires
            old(shared).wf(),
            old(self).flushes < u64::MAX,
            plan.count <= old(shared)@.pending.len(),
            plan.count <= old(self).rec_seq,
            outcome matches CommitOutcome::NameRefused { at } ==> at < plan.count,
        ensures
            final(shared).wf(),
            match outcome {
                CommitOutcome::Committed => {
                    &&& r == Ok::<usize, FlushError>(plan.count)
                    &&& final(shared)@ == (PlanesModel {
                        pending: old(shared)@.pending.skip(plan.count as int),
                        last_refusal: None,
                        ..old(shared)@
                    })
                    &&& final(self).flushes == old(self).flushes + 1
                    &&& final(self).rec_seq == old(self).rec_seq
                },
                CommitOutcome::FloorWouldDecrease(words) => {
                    &&& r == Err::<usize, FlushError>(FlushError::FloorWouldDecrease)
                    &&& final(shared)@ == (PlanesModel {
                        pending: old(shared)@.pending.skip(plan.count as int),
                        last_refusal: Some(words@),
                        ..old(shared)@
                    })
                    &&& *final(self) == *old(self)
                },
                CommitOutcome::NameRefused { at } => {
                    &&& r == Err::<usize, FlushError>(FlushError::NameRefused)
                    &&& final(shared)@ == old(shared)@
                    &&& final(self).flushes == old(self).flushes
                    &&& final(self).rec_seq == old(self).rec_seq - plan.count + at + 1
                },
                CommitOutcome::Failed => {
                    &&& r == Err::<usize, FlushError>(FlushError::Failed)
                    &&& final(shared)@ == old(shared)@
                    &&& *final(self) == *old(self)
                },
            },
    {
        match outcome {
            CommitOutcome::Committed => {
                shared.clear_pending(plan.count);
                shared.set_refusal(None);
                self.flushes += 1;
                Ok(plan.count)
            },
            CommitOutcome::FloorWouldDecrease(words) => {
                shared.clear_pending(plan.count);
                shared.set_refusal(Some(words));
                Err(FlushError::FloorWouldDecrease)
            },
            CommitOutcome::NameRefused { at } => {
                self.rec_seq = self.rec_seq - (plan.count as u64) + (at as u64) + 1;
                Err(FlushError::NameRefused)
            },
            CommitOutcome::Failed => Err(FlushError::Failed),
        }
    }
}

fn be64_vec(x: u64) -> (v: Vec<u8>)
    ensures
        v@ == be64(x),
{
    let mut v: Vec<u8> = Vec::new();
    octets::put_be64(&mut v, x);
    assert(v@ =~= be64(x));
    v
}

/// The steps of the writes up to the `i`-th are followed by the steps of the
/// `i`-th, and then by those of the rest: a queue is staged whole and in order.
proof fn staged_all_splits(ws: Seq<WriteModel>, base: int, i: int)
    requires
        0 <= i < ws.len(),
    ensures
        ({
            let at = staged_all(ws.take(i), base).len() as int;
            let these = staged(ws[i], base + i + 1);
            &&& at + these.len() <= staged_all(ws, base).len()
            &&& staged_all(ws, base).subrange(at, at + these.len()) == these
        }),
    decreases ws.len(),
{
    let at = staged_all(ws.take(i), base).len() as int;
    let these = staged(ws[i], base + i + 1);
    let all = staged_all(ws, base);
    if i == ws.len() - 1 {
        assert(ws.take(i) =~= ws.drop_last());
        assert(all.subrange(at, at + these.len()) =~= these);
    } else {
        staged_all_splits(ws.drop_last(), base, i);
        assert(ws.drop_last().take(i) =~= ws.take(i));
        let most = staged_all(ws.drop_last(), base);
        assert(all.subrange(at, at + these.len()) =~= most.subrange(at, at + these.len()));
    }
}

/// Every queued write is staged in the one transaction, whole, under a sequence
/// number of its own that is above every one before it.
pub proof fn every_write_is_staged(ws: Seq<WriteModel>, base: int, i: int)
    requires
        0 <= i < ws.len(),
    ensures
        exists|at: int|
            0 <= at && at + staged(ws[i], base + i + 1).len() <= staged_all(ws, base).len()
                && #[trigger] staged_all(ws, base).subrange(
                at,
                at + staged(ws[i], base + i + 1).len(),
            ) == staged(ws[i], base + i + 1),
        staged(ws[i], base + i + 1).len() > 0,
{
    staged_all_splits(ws, base, i);
}

/// A trust epoch and the floor that admits it are raised by the same transaction:
/// the record directly before the floor.
pub proof fn an_epoch_and_its_floor_commit_together(
    ws: Seq<WriteModel>,
    base: int,
    i: int,
    twinnet: Seq<char>,
    epoch: u64,
)
    requires
        0 <= i < ws.len(),
        ws[i] == (WriteModel::TrustEpoch { twinnet, epoch }),
    ensures
        exists|at: int|
            0 <= at && at + 1 < staged_all(ws, base).len() && #[trigger] staged_all(ws, base)[at]
                == plain(Namespace::Trust, NameModel::Epoch(twinnet), be64(epoch), base + i + 1)
                && staged_all(ws, base)[at + 1] == (OpModel::AdvanceFloor {
                floor: FloorModel::TrustEpoch,
                to: epoch,
            }),
{
    staged_all_splits(ws, base, i);
    let at = staged_all(ws.take(i), base).len() as int;
    let part = staged_all(ws, base).subrange(at, at + 2);
    assert(part[0] == staged_all(ws, base)[at]);
    assert(part[1] == staged_all(ws, base)[at + 1]);
}

/// The octets before the first endpoint: identifier, two generations, a flag, two
/// overlay addresses and the number of endpoints.
pub const FIXED: usize = 65;

/// The vault encoding of one endpoint: family, address, zone for IPv6, port.
pub open spec fn endpoint_octets(e: Endpoint) -> Seq<u8> {
    match e.address {
        IpAddr::V4(a) => seq![4u8] + a.octets@ + be16(e.port.number),
        IpAddr::V6(a) => seq![6u8] + a.octets@ + be32(a.zone) + be16(e.port.number),
    }
}

/// The vault encoding of a list of endpoints, one after the other.
pub open spec fn endpoints_octets(es: Seq<Endpoint>) -> Seq<u8>
    decreases es.len(),
{
    if es.len() == 0 {
        Seq::empty()
    } else {
        endpoint_octets(es[0]) + endpoints_octets(es.drop_first())
    }
}

/// The number of endpoints as it is written; it saturates.
pub open spec fn written_count(n: nat) -> u32 {
    if n <= u32::MAX {
        n as u32
    } else {
        u32::MAX
    }
}

/// The fixed part of the vault encoding of a peer record.
pub open spec fn header_octets(m: PeerModel) -> Seq<u8> {
    m.device_id.bytes@ + be32(m.generation) + be32(m.tk_generation) + seq![
        if m.verified {
            1u8
        } else {
            0u8
        },
    ] + m.overlay.v4.octets@ + m.overlay.v6.octets@ + be32(written_count(m.endpoints.len()))
}

/// The vault encoding of a peer record.
pub open spec fn peer_octets(m: PeerModel) -> Seq<u8> {
    header_octets(m) + endpoints_octets(m.endpoints)
}

proof fn endpoints_octets_push(es: Seq<Endpoint>, e: Endpoint)
    ensures
        endpoints_octets(es.push(e)) == endpoints_octets(es) + endpoint_octets(e),
    decreases es.len(),
{
    let all = es.push(e);
    if es.len() == 0 {
        assert(all.drop_first() =~= Seq::<Endpoint>::empty());
        assert(endpoints_octets(all.drop_first()) =~= Seq::<u8>::empty());
        assert(endpoints_octets(all) =~= endpoint_octets(e));
        assert(endpoints_octets(es) + endpoint_octets(e) =~= endpoint_octets(e));
    } else {
        endpoints_octets_push(es.drop_first(), e);
        assert(all.drop_first() =~= es.drop_first().push(e));
        assert(endpoints_octets(all) =~= endpoint_octets(es[0]) + (endpoints_octets(
            es.drop_first(),
        ) + endpoint_octets(e)));
        assert(endpoints_octets(es) + endpoint_octets(e) =~= endpoint_octets(es[0]) + (
        endpoints_octets(es.drop_first()) + endpoint_octets(e)));
    }
}

fn put_endpoint(out: &mut Vec<u8>, e: &Endpoint)
    ensures
        final(out)@ == old(out)@ + endpoint_octets(*e),
{
    match &e.address {
        IpAddr::V4(a) => {
            out.push(4);
            octets::put_slice(out, a.octets.as_slice());
        },
        IpAddr::V6(a) => {
            out.push(6);
            octets::put_slice(out, a.octets.as_slice());
            octets::put_be32(out, a.zone);
        },
    }
    octets::put_be16(out, e.port.number);
    assert(out@ =~= old(out)@ + endpoint_octets(*e));
}

/// Writes a peer record for the vault: every endpoint, in both families.
pub fn encode_peer(record: &PeerRecord) -> (out: Vec<u8>)
    ensures
        out@ == peer_octets(record@),
{
    let mut out: Vec<u8> = Vec::new();
    octets::put_slice(&mut out, record.device_id.bytes.as_slice());
    octets::put_be32(&mut out, record.generation);
    octets::put_be32(&mut out, record.tk_generation);
    out.push(if record.tunnel_key_binding_verified { 1 } else { 0 });
    octets::put_slice(&mut out, record.overlay.v4.octets.as_slice());
    octets::put_slice(&mut out, record.overlay.v6.octets.as_slice());
    let count: u32 = if record.endpoints.len() <= 0xffff_ffff {
        record.endpoints.len() as u32
    } else {
        0xffff_ffff
    };
    octets::put_be32(&mut out, count);
    assert(out@ =~= header_octets(record@));
    let ghost list = record.endpoints@;
    let mut i: usize = 0;
    assert(list.take(0) =~= Seq::<Endpoint>::empty());
    assert(out@ =~= header_octets(record@) + endpoints_octets(list.take(0)));
    while i < record.endpoints.len()
        invariant
            i <= list.len(),
            list == record.endpoints@,
            out@ == header_octets(record@) + endpoints_octets(list.take(i as int)),
        decreases list.len() - i,
    {
        put_endpoint(&mut out, &record.endpoints[i]);
        proof {
            endpoints_octets_push(list.take(i as int), list[i as int]);
            assert(list.take(i + 1) =~= list.take(i as int).push(list[i as int]));
            assert(out@ =~= header_octets(record@) + endpoints_octets(list.take(i + 1)));
        }
        i += 1;
    }
    assert(list.take(list.len() as int) =~= list);
    out
}

/// The endpoint that `s` starts with, and how many octets it takes.
pub open spec fn parse_endpoint(s: Seq<u8>) -> Option<(Endpoint, int)> {
    if s.len() >= 7 && s[0] == 4 {
        let port = Port { number: be16_value(s.subrange(5, 7)) };
        if port.wf() {
            Some((Endpoint { address: IpAddr::V4(v4_of(s.subrange(1, 5))), port }, 7))
        } else {
            None
        }
    } else if s.len() >= 23 && s[0] == 6 {
        let port = Port { number: be16_value(s.subrange(21, 23)) };
        let zone = be32_value(s.subrange(17, 21));
        if port.wf() {
            Some((Endpoint { address: IpAddr::V6(v6_of(s.subrange(1, 17), zone)), port }, 23))
        } else {
            None
        }
    } else {
        None
    }
}

/// The IPv4 address with these octets.
pub open spec fn v4_of(s: Seq<u8>) -> V4Addr {
    choose|a: V4Addr| a.octets@ == s
}

/// The IPv6 address with these octets and this zone.
pub open spec fn v6_of(s: Seq<u8>, zone: u32) -> V6Addr {
    choose|a: V6Addr| a.octets@ == s && a.zone == zone
}

/// The device identifier with these octets.
pub open spec fn device_of(s: Seq<u8>) -> DeviceId {
    choose|d: DeviceId| d.bytes@ == s
}

/// The `n` endpoints that `s` starts with; anything after them is not read.
pub open spec fn parse_endpoints(s: Seq<u8>, n: nat) -> Option<Seq<Endpoint>>
    decreases n,
{
    if n == 0 {
        Some(Seq::empty())
    } else {
        match parse_endpoint(s) {
            None => None,
            Some((e, used)) => match parse_endpoints(s.skip(used), (n - 1) as nat) {
                None => None,
                Some(rest) => Some(seq![e] + rest),
            },
        }
    }
}

/// The peer record that `s` is the vault encoding of: the fixed part, and then the
/// number of endpoints that it declares.
pub open spec fn parse_peer(s: Seq<u8>) -> Option<PeerModel> {
    if s.len() < FIXED {
        None
    } else {
        match parse_endpoints(s.skip(FIXED as int), be32_value(s.subrange(61, 65)) as nat) {
            None => None,
            Some(endpoints) => Some(
                PeerModel {
                    device_id: device_of(s.subrange(0, 32)),
                    generation: be32_value(s.subrange(32, 36)),
                    tk_generation: be32_value(s.subrange(36, 40)),
                    verified: s[40] == 1,
                    endpoints,
                    overlay: OverlayAddresses {
                        v4: v4_of(s.subrange(41, 45)),
                        v6: v6_of(s.subrange(45, 61), 0),
                    },
                },
            ),
        }
    }
}

proof fn v4_is_its_octets(a: V4Addr)
    ensures
        v4_of(a.octets@) == a,
{
    let b = v4_of(a.octets@);
    assert(b.octets@ == a.octets@);
    assert(b.octets =~= a.octets);
}

proof fn v6_is_its_octets(a: V6Addr)
    ensures
        v6_of(a.octets@, a.zone) == a,
{
    let b = v6_of(a.octets@, a.zone);
    assert(a.octets@ == a.octets@ && a.zone == a.zone);
    assert(b.octets@ == a.octets@ && b.zone == a.zone);
    assert(b.octets =~= a.octets);
}

proof fn device_is_its_octets(d: DeviceId)
    ensures
        device_of(d.bytes@) == d,
{
    let b = device_of(d.bytes@);
    assert(b.bytes@ == d.bytes@);
    assert(b.bytes =~= d.bytes);
}

fn get_v4(bytes: &[u8], at: usize) -> (a: V4Addr)
    requires
        at + 4 <= bytes@.len(),
    ensures
        a == v4_of(bytes@.subrange(at as int, at + 4)),
{
    let a = V4Addr { octets: [bytes[at], bytes[at + 1], bytes[at + 2], bytes[at + 3]] };
    proof {
        assert(a.octets@ =~= bytes@.subrange(at as int, at + 4));
        v4_is_its_octets(a);
    }
    a
}

fn get_v6(bytes: &[u8], at: usize, zone: u32) -> (a: V6Addr)
    requires
        at + 16 <= bytes@.len(),
    ensures
        a == v6_of(bytes@.subrange(at as int, at + 16), zone),
{
    let a = V6Addr { octets: octets::array16(bytes, at), zone };
    proof {
        v6_is_its_octets(a);
    }
    a
}

/// Reads the endpoint at `at`, and says where it ends.
fn get_endpoint(bytes: &[u8], at: usize) -> (r: Option<(Endpoint, usize)>)
    requires
        at <= bytes@.len(),
    ensures
        match r {
            Some((e, end)) => at < end <= bytes@.len() && parse_endpoint(bytes@.skip(at as int))
                == Some((e, end - at)),
            None => parse_endpoint(bytes@.skip(at as int)) is None,
        },
{
    let left: usize = bytes.len() - at;
    let ghost s = bytes@.skip(at as int);
    if left == 0 {
        return None;
    }
    let (address, next): (IpAddr, usize) = match bytes[at] {
        4 => {
            if left < 5 {
                return None;
            }
            assert(s.subrange(1, 5) =~= bytes@.subrange(at + 1, at + 5));
            (IpAddr::V4(get_v4(bytes, at + 1)), at + 5)
        },
        6 => {
            if left < 21 {
                return None;
            }
            let zone: u32 = octets::get_be32(bytes, at + 17);
            assert(s.subrange(17, 21) =~= bytes@.subrange(at + 17, at + 21));
            assert(s.subrange(1, 17) =~= bytes@.subrange(at + 1, at + 17));
            (IpAddr::V6(get_v6(bytes, at + 1, zone)), at + 21)
        },
        _ => {
            return None;
        },
    };
    if bytes.len() - next < 2 {
        return None;
    }
    let number: u16 = octets::get_be16(bytes, next);
    assert(s.subrange(next - at, next - at + 2) =~= bytes@.subrange(next as int, next + 2));
    match Port::new(number) {
        Ok(port) => Some((Endpoint { address, port }, next + 2)),
        Err(_) => None,
    }
}

/// What a run of endpoints that were read, and what is still to be read, come to.
spec fn prepend(done: Seq<Endpoint>, rest: Option<Seq<Endpoint>>) -> Option<Seq<Endpoint>> {
    match rest {
        None => None,
        Some(rest) => Some(done + rest),
    }
}

/// Reads back what [`encode_peer`] wrote. A record that does not decode is refused,
/// never partially recovered.
pub fn decode_peer(bytes: &[u8]) -> (r: Result<PeerRecord, StoreError>)
    ensures
        match r {
            Ok(record) => parse_peer(bytes@) == Some(record@),
            Err(e) => parse_peer(bytes@) is None && e.corrupt_peer(),
        },
{
    let corrupt = StoreError::RecordCorrupt {
        namespace: "peer/",
        detector: "peer record length or endpoint framing",
    };
    if bytes.len() < FIXED {
        return Err(corrupt);
    }
    let device_id = DeviceId { bytes: octets::array32(bytes, 0) };
    proof {
        device_is_its_octets(device_id);
    }
    let generation: u32 = octets::get_be32(bytes, 32);
    let tk_generation: u32 = octets::get_be32(bytes, 36);
    let verified = bytes[40] == 1;
    let v4 = get_v4(bytes, 41);
    let v6 = get_v6(bytes, 45, 0);
    let count: u32 = octets::get_be32(bytes, 61);
    let mut endpoints: Vec<Endpoint> = Vec::new();
    let mut cursor: usize = FIXED;
    let mut done: u32 = 0;
    let ghost whole = parse_endpoints(bytes@.skip(FIXED as int), count as nat);
    assert(prepend(endpoints@, whole) == whole) by {
        if let Some(rest) = whole {
            assert(Seq::<Endpoint>::empty() + rest =~= rest);
        }
    }
    while done < count
        invariant
            done <= count,
            cursor <= bytes@.len(),
            whole == prepend(
                endpoints@,
                parse_endpoints(bytes@.skip(cursor as int), (count - done) as nat),
            ),
            whole == parse_endpoints(bytes@.skip(FIXED as int), count as nat),
            bytes@.len() >= FIXED,
            count == be32_value(bytes@.subrange(61, 65)),
            corrupt.corrupt_peer(),
        decreases count - done,
    {
        match get_endpoint(bytes, cursor) {
            None => {
                return Err(corrupt);
            },
            Some((e, end)) => {
                proof {
                    let rest = parse_endpoints(bytes@.skip(end as int), (count - done - 1) as nat);
                    assert(bytes@.skip(cursor as int).skip(end - cursor) =~= bytes@.skip(
                        end as int,
                    ));
                    if let Some(rest) = rest {
                        assert(endpoints@ + (seq![e] + rest) =~= endpoints@.push(e) + rest);
                    }
                }
                endpoints.push(e);
                cursor = end;
            },
        }
        done += 1;
    }
    assert(endpoints@ + Seq::<Endpoint>::empty() =~= endpoints@);
    Ok(
        PeerRecord {
            device_id,
            generation,
            tk_generation,
            tunnel_key_binding_verified: verified,
            endpoints,
            overlay: OverlayAddresses { v4, v6 },
        },
    )
}

/// A control-plane fact that the vault held, as its records were read.
#[derive(Debug)]
pub enum HeldFact {
    /// The cursor of a twinnet.
    Cursor {
        /// Whose cursor.
        twinnet: TwinnetId,
        /// Its record.
        value: Vec<u8>,
    },
    /// The trust epoch of a twinnet.
    TrustEpoch {
        /// Whose epoch.
        twinnet: TwinnetId,
        /// Its record.
        value: Vec<u8>,
    },
    /// A document of a twinnet.
    Document {
        /// Whose document.
        twinnet: TwinnetId,
        /// Which document.
        doc_type: &'static str,
        /// The record of its version.
        version: Vec<u8>,
        /// Its octets, verbatim.
        payload: Vec<u8>,
        /// The digest of its content, which the vault does not hold.
        content_digest: [u8; 32],
    },
    /// A peer of a twinnet.
    Peer {
        /// In which twinnet.
        twinnet: TwinnetId,
        /// Its record, which names the device.
        value: Vec<u8>,
    },
    /// The causality token of a twinnet.
    CausalityToken {
        /// Whose token.
        twinnet: TwinnetId,
        /// The token.
        token: Vec<u8>,
    },
}

/// What a [`HeldFact`] says.
pub enum HeldModel {
    /// See [`HeldFact::Cursor`].
    Cursor { twinnet: Seq<char>, value: Seq<u8> },
    /// See [`HeldFact::TrustEpoch`].
    TrustEpoch { twinnet: Seq<char>, value: Seq<u8> },
    /// See [`HeldFact::Document`].
    Document {
        twinnet: Seq<char>,
        doc_type: Seq<char>,
        version: Seq<u8>,
        payload: Seq<u8>,
        content_digest: [u8; 32],
    },
    /// See [`HeldFact::Peer`].
    Peer { twinnet: Seq<char>, value: Seq<u8> },
    /// See [`HeldFact::CausalityToken`].
    CausalityToken { twinnet: Seq<char>, token: Seq<u8> },
}

impl HeldFact {
    /// What the fact says.
    pub open spec fn view(self) -> HeldModel {
        match self {
            HeldFact::Cursor { twinnet, value } => HeldModel::Cursor {
                twinnet: twinnet@,
                value: value@,
            },
            HeldFact::TrustEpoch { twinnet, value } => HeldModel::TrustEpoch {
                twinnet: twinnet@,
                value: value@,
            },
            HeldFact::Document { twinnet, doc_type, version, payload, content_digest } =>
                HeldModel::Document {
                twinnet: twinnet@,
                doc_type: doc_type@,
                version: version@,
                payload: payload@,
                content_digest,
            },
            HeldFact::Peer { twinnet, value } => HeldModel::Peer {
                twinnet: twinnet@,
                value: value@,
            },
            HeldFact::CausalityToken { twinnet, token } => HeldModel::CausalityToken {
                twinnet: twinnet@,
                token: token@,
            },
        }
    }
}

/// The mark that a record holds: eight octets, and neither more nor fewer.
pub open spec fn mark_of(value: Seq<u8>) -> Option<u64> {
    if value.len() == 8 {
        Some(be64_value(value))
    } else {
        None
    }
}

impl HeldModel {
    /// The write that the records of a fact came from; `None` where one does not decode.
    pub open spec fn read(self) -> Option<WriteModel> {
        match self {
            HeldModel::Cursor { twinnet, value } => match mark_of(value) {
                Some(net_seq) => Some(WriteModel::Cursor { twinnet, net_seq }),
                None => None,
            },
            HeldModel::TrustEpoch { twinnet, value } => match mark_of(value) {
                Some(epoch) => Some(WriteModel::TrustEpoch { twinnet, epoch }),
                None => None,
            },
            HeldModel::Document { twinnet, doc_type, version, payload, content_digest } =>
                match mark_of(version) {
                Some(version) => Some(
                    WriteModel::Document { twinnet, doc_type, version, content_digest, payload },
                ),
                None => None,
            },
            HeldModel::Peer { twinnet, value } => match parse_peer(value) {
                Some(record) => Some(
                    WriteModel::Peer { twinnet, device_id: record.device_id, record },
                ),
                None => None,
            },
            HeldModel::CausalityToken { twinnet, token } => Some(
                WriteModel::CausalityToken { twinnet, token },
            ),
        }
    }

    /// A fact that does not decode is refused with this error.
    pub open spec fn is_refused_as(self, e: StoreError) -> bool {
        match self {
            HeldModel::TrustEpoch { .. } => e.corrupt_mark("trust/"@),
            HeldModel::Peer { .. } => e.corrupt_peer(),
            _ => e.corrupt_mark("doc/"@),
        }
    }
}

/// Every fact decodes.
pub open spec fn all_read(held: Seq<HeldFact>) -> bool {
    forall|i: int| 0 <= i < held.len() ==> (#[trigger] held[i])@.read() is Some
}

/// The writes that the facts came from, in their order.
pub open spec fn facts_of(held: Seq<HeldFact>) -> Seq<WriteModel> {
    held.map_values(|f: HeldFact| f@.read()->0)
}

/// The fact at `i` is the first that does not decode.
pub open spec fn first_refused(held: Seq<HeldFact>, i: int, e: StoreError) -> bool {
    &&& 0 <= i < held.len()
    &&& held[i]@.read() is None
    &&& forall|j: int| 0 <= j < i ==> (#[trigger] held[j])@.read() is Some
    &&& held[i]@.is_refused_as(e)
}

/// Some fact does not decode, and `e` is the refusal of the first.
pub open spec fn is_refused(held: Seq<HeldFact>, e: StoreError) -> bool {
    exists|i: int| #[trigger] first_refused(held, i, e)
}

fn get_mark(value: &Vec<u8>, namespace: &'static str) -> (r: Result<u64, StoreError>)
    ensures
        match r {
            Ok(mark) => mark_of(value@) == Some(mark),
            Err(e) => mark_of(value@) is None && e.corrupt_mark(namespace@),
        },
{
    if value.len() == 8 {
        assert(value@.subrange(0, 8) =~= value@);
        Ok(octets::get_be64(value.as_slice(), 0))
    } else {
        Err(StoreError::RecordCorrupt { namespace, detector: "mark length" })
    }
}

/// Reads one fact that the vault held. A record that does not decode is refused.
fn read_fact(held: &HeldFact) -> (r: Result<PendingWrite, StoreError>)
    ensures
        match r {
            Ok(write) => held@.read() == Some(write@),
            Err(e) => held@.read() is None && held@.is_refused_as(e),
        },
{
    match held {
        HeldFact::Cursor { twinnet, value } => match get_mark(value, "doc/") {
            Ok(net_seq) => Ok(PendingWrite::Cursor { twinnet: twinnet.clone(), net_seq }),
            Err(e) => Err(e),
        },
        HeldFact::TrustEpoch { twinnet, value } => match get_mark(value, "trust/") {
            Ok(epoch) => Ok(PendingWrite::TrustEpoch { twinnet: twinnet.clone(), epoch }),
            Err(e) => Err(e),
        },
        HeldFact::Document { twinnet, doc_type, version, payload, content_digest } =>
            match get_mark(version, "doc/") {
            Ok(version) => Ok(
                PendingWrite::Document {
                    twinnet: twinnet.clone(),
                    doc_type: *doc_type,
                    version,
                    content_digest: *content_digest,
                    payload: octets::to_vec(payload.as_slice()),
                },
            ),
            Err(e) => Err(e),
        },
        HeldFact::Peer { twinnet, value } => match decode_peer(value.as_slice()) {
            Ok(record) => Ok(
                PendingWrite::Peer {
                    twinnet: twinnet.clone(),
                    device_id: record.device_id,
                    record,
                },
            ),
            Err(e) => Err(e),
        },
        HeldFact::CausalityToken { twinnet, token } => Ok(
            PendingWrite::CausalityToken {
                twinnet: twinnet.clone(),
                token: octets::to_vec(token.as_slice()),
            },
        ),
    }
}

/// Reads what the vault held of the control plane: all of it, or the refusal of the first
/// fact that does not decode.
pub fn read_facts(held: &Vec<HeldFact>) -> (r: Result<Vec<PendingWrite>, StoreError>)
    ensures
        match r {
            Ok(facts) => all_read(held@) && writes_view(facts@) == facts_of(held@),
            Err(e) => is_refused(held@, e),
        },
{
    let mut facts: Vec<PendingWrite> = Vec::new();
    let mut i: usize = 0;
    while i < held.len()
        invariant
            i <= held@.len(),
            facts@.len() == i,
            forall|j: int| 0 <= j < i ==> (#[trigger] held@[j])@.read() is Some,
            forall|j: int|
                0 <= j < i ==> (#[trigger] facts@[j])@ == held@[j]@.read()->0,
        decreases held@.len() - i,
    {
        match read_fact(&held[i]) {
            Ok(write) => {
                facts.push(write);
            },
            Err(e) => {
                assert(first_refused(held@, i as int, e));
                return Err(e);
            },
        }
        i += 1;
    }
    assert(writes_view(facts@) =~= facts_of(held@));
    Ok(facts)
}

/// Every endpoint has a port.
pub open spec fn ports_present(es: Seq<Endpoint>) -> bool {
    forall|i: int| 0 <= i < es.len() ==> (#[trigger] es[i]).wf()
}

proof fn endpoint_reads_back(e: Endpoint, tail: Seq<u8>)
    requires
        e.wf(),
    ensures
        parse_endpoint(endpoint_octets(e) + tail) == Some((e, endpoint_octets(e).len() as int)),
{
    let s = endpoint_octets(e) + tail;
    octets::be16_round_trip(e.port.number);
    match e.address {
        IpAddr::V4(a) => {
            assert(s[0] == 4);
            assert(s.subrange(1, 5) =~= a.octets@);
            assert(s.subrange(5, 7) =~= be16(e.port.number));
            v4_is_its_octets(a);
        },
        IpAddr::V6(a) => {
            assert(s[0] == 6);
            octets::be32_round_trip(a.zone);
            assert(s.subrange(1, 17) =~= a.octets@);
            assert(s.subrange(17, 21) =~= be32(a.zone));
            assert(s.subrange(21, 23) =~= be16(e.port.number));
            v6_is_its_octets(a);
        },
    }
}

proof fn endpoint_prefix_is_refused(e: Endpoint, k: int)
    requires
        0 <= k < endpoint_octets(e).len(),
    ensures
        parse_endpoint(endpoint_octets(e).take(k)) is None,
{
    if k > 0 {
        assert(endpoint_octets(e).take(k)[0] == endpoint_octets(e)[0]);
    }
}

proof fn endpoints_read_back(es: Seq<Endpoint>, tail: Seq<u8>)
    requires
        ports_present(es),
    ensures
        parse_endpoints(endpoints_octets(es) + tail, es.len()) == Some(es),
    decreases es.len(),
{
    let s = endpoints_octets(es) + tail;
    if es.len() == 0 {
        assert(es =~= Seq::<Endpoint>::empty());
    } else {
        let rest = endpoints_octets(es.drop_first()) + tail;
        assert(s =~= endpoint_octets(es[0]) + rest);
        assert(es[0].wf());
        endpoint_reads_back(es[0], rest);
        assert(s.skip(endpoint_octets(es[0]).len() as int) =~= rest);
        assert(ports_present(es.drop_first())) by {
            assert forall|i: int| 0 <= i < es.drop_first().len() implies (
            #[trigger] es.drop_first()[i]).wf() by {
                assert(es.drop_first()[i] == es[i + 1]);
            }
        }
        endpoints_read_back(es.drop_first(), tail);
        assert(seq![es[0]] + es.drop_first() =~= es);
    }
}

proof fn endpoints_prefix_is_refused(es: Seq<Endpoint>, k: int)
    requires
        ports_present(es),
        0 <= k < endpoints_octets(es).len(),
    ensures
        parse_endpoints(endpoints_octets(es).take(k), es.len()) is None,
    decreases es.len(),
{
    let s = endpoints_octets(es).take(k);
    let first = endpoint_octets(es[0]);
    assert(es.len() > 0);
    assert(es[0].wf());
    if k < first.len() {
        assert(s =~= first.take(k));
        endpoint_prefix_is_refused(es[0], k);
    } else {
        let rest = endpoints_octets(es.drop_first()).take(k - first.len());
        assert(s =~= first + rest);
        endpoint_reads_back(es[0], rest);
        assert(s.skip(first.len() as int) =~= rest);
        assert(ports_present(es.drop_first())) by {
            assert forall|i: int| 0 <= i < es.drop_first().len() implies (
            #[trigger] es.drop_first()[i]).wf() by {
                assert(es.drop_first()[i] == es[i + 1]);
            }
        }
        endpoints_prefix_is_refused(es.drop_first(), k - first.len());
    }
}

proof fn header_fields(m: PeerModel, tail: Seq<u8>)
    ensures
        ({
            let s = header_octets(m) + tail;
            &&& header_octets(m).len() == FIXED
            &&& device_of(s.subrange(0, 32)) == m.device_id
            &&& be32_value(s.subrange(32, 36)) == m.generation
            &&& be32_value(s.subrange(36, 40)) == m.tk_generation
            &&& (s[40] == 1) == m.verified
            &&& v4_of(s.subrange(41, 45)) == m.overlay.v4
            &&& v6_of(s.subrange(45, 61), m.overlay.v6.zone) == m.overlay.v6
            &&& be32_value(s.subrange(61, 65)) == written_count(m.endpoints.len())
            &&& s.skip(FIXED as int) == tail
        }),
{
    let s = header_octets(m) + tail;
    octets::be32_round_trip(m.generation);
    octets::be32_round_trip(m.tk_generation);
    octets::be32_round_trip(written_count(m.endpoints.len()));
    device_is_its_octets(m.device_id);
    v4_is_its_octets(m.overlay.v4);
    v6_is_its_octets(m.overlay.v6);
    assert(s.subrange(0, 32) =~= m.device_id.bytes@);
    assert(s.subrange(32, 36) =~= be32(m.generation));
    assert(s.subrange(36, 40) =~= be32(m.tk_generation));
    assert(s.subrange(41, 45) =~= m.overlay.v4.octets@);
    assert(s.subrange(45, 61) =~= m.overlay.v6.octets@);
    assert(s.subrange(61, 65) =~= be32(written_count(m.endpoints.len())));
    assert(s.skip(FIXED as int) =~= tail);
}

/// A peer record survives the vault: what was written is read back, every endpoint
/// of both families with it, whatever octets follow. The overlay address is stored
/// without a zone, so the record must have none there.
pub proof fn a_peer_record_survives_the_vault(m: PeerModel, tail: Seq<u8>)
    requires
        ports_present(m.endpoints),
        m.endpoints.len() <= u32::MAX,
        m.overlay.v6.zone == 0,
    ensures
        parse_peer(peer_octets(m) + tail) == Some(m),
{
    let rest = endpoints_octets(m.endpoints) + tail;
    assert(peer_octets(m) + tail =~= header_octets(m) + rest);
    header_fields(m, rest);
    endpoints_read_back(m.endpoints, tail);
}

/// A truncated peer record is refused, never partially recovered: no strict prefix
/// of what was written decodes.
pub proof fn a_truncated_peer_record_is_refused(m: PeerModel, k: int)
    requires
        ports_present(m.endpoints),
        m.endpoints.len() <= u32::MAX,
        0 <= k < peer_octets(m).len(),
    ensures
        parse_peer(peer_octets(m).take(k)) is None,
{
    header_fields(m, Seq::empty());
    if k >= FIXED {
        let rest = endpoints_octets(m.endpoints).take(k - FIXED);
        assert(peer_octets(m).take(k) =~= header_octets(m) + rest);
        header_fields(m, rest);
        endpoints_prefix_is_refused(m.endpoints, k - FIXED);
    }
}

/// A declared number of endpoints that the octets cannot hold is refused: each
/// endpoint takes at least seven octets, so a record never yields more endpoints
/// than its octets pay for.
pub proof fn a_declared_count_is_paid_for(s: Seq<u8>)
    ensures
        parse_peer(s) matches Some(m) ==> 7 * m.endpoints.len() + FIXED <= s.len()
            && m.endpoints.len() == be32_value(s.subrange(61, 65)),
{
    if s.len() >= FIXED {
        endpoints_are_paid_for(s.skip(FIXED as int), be32_value(s.subrange(61, 65)) as nat);
    }
}

proof fn endpoints_are_paid_for(s: Seq<u8>, n: nat)
    ensures
        parse_endpoints(s, n) matches Some(es) ==> es.len() == n && 7 * n <= s.len(),
    decreases n,
{
    if n > 0 {
        if let Some((e, used)) = parse_endpoint(s) {
            endpoints_are_paid_for(s.skip(used), (n - 1) as nat);
        }
    }
}

} // verus!
