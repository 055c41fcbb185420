//! The two one-directional ports between the planes.
//!
//! The control plane writes through [`ControlPlanePort`] and the data plane
//! reads through [`DataPlaneView`]. Both stand on one [`BridgeState`]: a cache of
//! what was admitted and a queue of what is still to be made durable. There is
//! no method on the view that writes.

use vstd::prelude::*;

use crate::octets;
use crate::table::{NameMap, OctetMap};
use crate::types::{same_text, DeviceId, Endpoint, OverlayAddresses, TwinnetId};

verus! {

/// The cached facts about one peer that cross the bridge.
#[derive(Debug, PartialEq, Eq)]
pub struct PeerRecord {
    /// The peer.
    pub device_id: DeviceId,
    /// The peer's record generation.
    pub generation: u32,
    /// The generation of the peer's tunnel key.
    pub tk_generation: u32,
    /// Whether the binding of the tunnel key to the peer verified.
    pub tunnel_key_binding_verified: bool,
    /// Where the peer was last reachable: what a reconnect during a total outage
    /// uses.
    pub endpoints: Vec<Endpoint>,
    /// The peer's overlay addresses, both families.
    pub overlay: OverlayAddresses,
}

/// What a [`PeerRecord`] says.
pub struct PeerModel {
    /// The peer.
    pub device_id: DeviceId,
    /// The peer's record generation.
    pub generation: u32,
    /// The generation of the peer's tunnel key.
    pub tk_generation: u32,
    /// Whether the binding of the tunnel key to the peer verified.
    pub verified: bool,
    /// Where the peer was last reachable.
    pub endpoints: Seq<Endpoint>,
    /// The peer's overlay addresses.
    pub overlay: OverlayAddresses,
}

/// A copy of a list of endpoints.
pub fn copy_endpoints(list: &Vec<Endpoint>) -> (copy: Vec<Endpoint>)
    ensures
        copy@ == list@,
{
    let mut copy: Vec<Endpoint> = Vec::new();
    let mut i: usize = 0;
    while i < list.len()
        invariant
            i <= list@.len(),
            copy@ == list@.take(i as int),
        decreases list@.len() - i,
    {
        copy.push(list[i]);
        assert(list@.take(i + 1) =~= list@.take(i as int).push(list@[i as int]));
        i += 1;
    }
    assert(list@.take(list@.len() as int) =~= list@);
    copy
}

impl PeerRecord {
    /// What the record says.
    pub open spec fn view(self) -> PeerModel {
        PeerModel {
            device_id: self.device_id,
            generation: self.generation,
            tk_generation: self.tk_generation,
            verified: self.tunnel_key_binding_verified,
            endpoints: self.endpoints@,
            overlay: self.overlay,
        }
    }
}

impl Clone for PeerRecord {
    fn clone(&self) -> (r: Self)
        ensures
            r@ == self@,
    {
        PeerRecord {
            device_id: self.device_id,
            generation: self.generation,
            tk_generation: self.tk_generation,
            tunnel_key_binding_verified: self.tunnel_key_binding_verified,
            endpoints: copy_endpoints(&self.endpoints),
            overlay: self.overlay,
        }
    }
}

/// One write that is still to be made durable.
#[derive(Debug, PartialEq, Eq)]
pub enum PendingWrite {
    /// The event cursor of a twinnet.
    Cursor {
        /// Whose cursor.
        twinnet: TwinnetId,
        /// Where it stands.
        net_seq: u64,
    },
    /// The trust epoch of a twinnet.
    TrustEpoch {
        /// Whose epoch.
        twinnet: TwinnetId,
        /// Where it stands.
        epoch: u64,
    },
    /// A verified document, by the octets that were verified.
    Document {
        /// Whose document.
        twinnet: TwinnetId,
        /// Which document.
        doc_type: &'static str,
        /// Its version.
        version: u64,
        /// The digest of its content.
        content_digest: [u8; 32],
        /// The octets, verbatim.
        payload: Vec<u8>,
    },
    /// A peer's cached record.
    Peer {
        /// In which twinnet.
        twinnet: TwinnetId,
        /// The peer.
        device_id: DeviceId,
        /// The record.
        record: PeerRecord,
    },
    /// A peer that is gone.
    PeerRemoved {
        /// In which twinnet.
        twinnet: TwinnetId,
        /// The peer.
        device_id: DeviceId,
        /// The registered code that removed it.
        reason_code: String,
    },
    /// A session record, or its removal.
    Session {
        /// The record's key.
        key: String,
        /// The record; `None` to remove it.
        value: Option<Vec<u8>>,
    },
    /// The causality token of a twinnet.
    CausalityToken {
        /// Whose token.
        twinnet: TwinnetId,
        /// The token.
        token: Vec<u8>,
    },
}

/// What a [`PendingWrite`] says.
pub enum WriteModel {
    /// See [`PendingWrite::Cursor`].
    Cursor { twinnet: Seq<char>, net_seq: u64 },
    /// See [`PendingWrite::TrustEpoch`].
    TrustEpoch { twinnet: Seq<char>, epoch: u64 },
    /// See [`PendingWrite::Document`].
    Document {
        twinnet: Seq<char>,
        doc_type: Seq<char>,
        version: u64,
        content_digest: [u8; 32],
        payload: Seq<u8>,
    },
    /// See [`PendingWrite::Peer`].
    Peer { twinnet: Seq<char>, device_id: DeviceId, record: PeerModel },
    /// See [`PendingWrite::PeerRemoved`].
    PeerRemoved { twinnet: Seq<char>, device_id: DeviceId, reason_code: Seq<char> },
    /// See [`PendingWrite::Session`].
    Session { key: Seq<char>, value: Option<Seq<u8>> },
    /// See [`PendingWrite::CausalityToken`].
    CausalityToken { twinnet: Seq<char>, token: Seq<u8> },
}

/// An optional octet string, as a sequence.
pub open spec fn optional_octets(value: Option<Vec<u8>>) -> Option<Seq<u8>> {
    match value {
        Some(v) => Some(v@),
        None => None,
    }
}

/// A copy of an optional octet string.
pub fn copy_optional(value: &Option<Vec<u8>>) -> (copy: Option<Vec<u8>>)
    ensures
        optional_octets(copy) == optional_octets(*value),
{
    match value {
        Some(v) => Some(octets::to_vec(v.as_slice())),
        None => None,
    }
}

impl PendingWrite {
    /// What the write says.
    pub open spec fn view(self) -> WriteModel {
        match self {
            PendingWrite::Cursor { twinnet, net_seq } => WriteModel::Cursor {
                twinnet: twinnet@,
                net_seq,
            },
            PendingWrite::TrustEpoch { twinnet, epoch } => WriteModel::TrustEpoch {
                twinnet: twinnet@,
                epoch,
            },
            PendingWrite::Document { twinnet, doc_type, version, content_digest, payload } =>
                WriteModel::Document {
                twinnet: twinnet@,
                doc_type: doc_type@,
                version,
                content_digest,
                payload: payload@,
            },
            PendingWrite::Peer { twinnet, device_id, record } => WriteModel::Peer {
                twinnet: twinnet@,
                device_id,
                record: record@,
            },
            PendingWrite::PeerRemoved { twinnet, device_id, reason_code } =>
                WriteModel::PeerRemoved {
                twinnet: twinnet@,
                device_id,
                reason_code: reason_code@,
            },
            PendingWrite::Session { key, value } => WriteModel::Session {
                key: key@,
                value: optional_octets(value),
            },
            PendingWrite::CausalityToken { twinnet, token } => WriteModel::CausalityToken {
                twinnet: twinnet@,
                token: token@,
            },
        }
    }
}

impl Clone for PendingWrite {
    fn clone(&self) -> (w: Self)
        ensures
            w@ == self@,
    {
        match self {
            PendingWrite::Cursor { twinnet, net_seq } => PendingWrite::Cursor {
                twinnet: twinnet.clone(),
                net_seq: *net_seq,
            },
            PendingWrite::TrustEpoch { twinnet, epoch } => PendingWrite::TrustEpoch {
                twinnet: twinnet.clone(),
                epoch: *epoch,
            },
            PendingWrite::Document { twinnet, doc_type, version, content_digest, payload } =>
                PendingWrite::Document {
                twinnet: twinnet.clone(),
                doc_type: *doc_type,
                version: *version,
                content_digest: *content_digest,
                payload: octets::to_vec(payload.as_slice()),
            },
            PendingWrite::Peer { twinnet, device_id, record } => PendingWrite::Peer {
                twinnet: twinnet.clone(),
                device_id: *device_id,
                record: record.clone(),
            },
            PendingWrite::PeerRemoved { twinnet, device_id, reason_code } =>
                PendingWrite::PeerRemoved {
                twinnet: twinnet.clone(),
                device_id: *device_id,
                reason_code: reason_code.clone(),
            },
            PendingWrite::Session { key, value } => PendingWrite::Session {
                key: key.clone(),
                value: copy_optional(value),
            },
            PendingWrite::CausalityToken { twinnet, token } => PendingWrite::CausalityToken {
                twinnet: twinnet.clone(),
                token: octets::to_vec(token.as_slice()),
            },
        }
    }
}

/// What a queue of writes says, in order.
pub open spec fn writes_view(writes: Seq<PendingWrite>) -> Seq<WriteModel> {
    writes.map_values(|w: PendingWrite| w@)
}

/// A document that was admitted.
#[derive(Debug)]
pub struct HeldDocument {
    /// Its version.
    pub version: u64,
    /// The digest of its content.
    pub content_digest: [u8; 32],
    /// Its octets, verbatim.
    pub payload: Vec<u8>,
}

/// What a [`HeldDocument`] says.
pub struct DocumentModel {
    /// Its version.
    pub version: u64,
    /// The digest of its content.
    pub content_digest: [u8; 32],
    /// Its octets.
    pub payload: Seq<u8>,
}

impl HeldDocument {
    /// What the document says.
    pub open spec fn view(self) -> DocumentModel {
        DocumentModel {
            version: self.version,
            content_digest: self.content_digest,
            payload: self.payload@,
        }
    }
}

/// The cache and the queue, as mathematics.
#[verifier::ext_equal]
pub struct PlanesModel {
    /// The event cursor of each twinnet that has one.
    pub cursor: Map<Seq<char>, u64>,
    /// The trust epoch of each twinnet that has one.
    pub trust_epoch: Map<Seq<char>, u64>,
    /// The document of each twinnet and type.
    pub documents: Map<(Seq<char>, Seq<char>), DocumentModel>,
    /// The record of each twinnet and peer.
    pub peers: Map<(Seq<char>, Seq<u8>), PeerModel>,
    /// The causality token of each twinnet that has one.
    pub causality: Map<Seq<char>, Seq<u8>>,
    /// The writes still to be made durable, oldest first.
    pub pending: Seq<WriteModel>,
    /// The last refusal that a flush published.
    pub last_refusal: Option<Seq<char>>,
}

impl PlanesModel {
    /// The cache with one write applied; the queue is as it was.
    pub open spec fn applied(self, w: WriteModel) -> PlanesModel {
        match w {
            WriteModel::Cursor { twinnet, net_seq } => PlanesModel {
                cursor: self.cursor.insert(twinnet, net_seq),
                ..self
            },
            WriteModel::TrustEpoch { twinnet, epoch } => PlanesModel {
                trust_epoch: self.trust_epoch.insert(twinnet, epoch),
                ..self
            },
            WriteModel::Document { twinnet, doc_type, version, content_digest, payload } =>
                PlanesModel {
                documents: self.documents.insert(
                    (twinnet, doc_type),
                    (DocumentModel { version, content_digest, payload }),
                ),
                ..self
            },
            WriteModel::Peer { twinnet, device_id, record } => PlanesModel {
                peers: self.peers.insert((twinnet, device_id.bytes@), record),
                ..self
            },
            WriteModel::PeerRemoved { twinnet, device_id, .. } => PlanesModel {
                peers: self.peers.remove((twinnet, device_id.bytes@)),
                ..self
            },
            WriteModel::Session { .. } => self,
            WriteModel::CausalityToken { twinnet, token } => PlanesModel {
                causality: self.causality.insert(twinnet, token),
                ..self
            },
        }
    }

    /// The cache and the queue after one write is accepted: the cache shows it and
    /// the queue ends with it.
    pub open spec fn accepted(self, w: WriteModel) -> PlanesModel {
        PlanesModel { pending: self.pending.push(w), ..self.applied(w) }
    }

    /// The cache may take a fact that the vault held. A mark gives way only to a higher
    /// one, and anything else that is known stays; a peer whose removal is queued does
    /// not come back.
    pub open spec fn takes_back(self, w: WriteModel) -> bool {
        match w {
            WriteModel::Cursor { twinnet, net_seq } => self.cursor.contains_key(twinnet)
                ==> self.cursor[twinnet] < net_seq,
            WriteModel::TrustEpoch { twinnet, epoch } => self.trust_epoch.contains_key(twinnet)
                ==> self.trust_epoch[twinnet] < epoch,
            WriteModel::Document { twinnet, doc_type, version, .. } => self.documents.contains_key(
                (twinnet, doc_type),
            ) ==> self.documents[(twinnet, doc_type)].version < version,
            WriteModel::Peer { twinnet, device_id, .. } => !self.peers.contains_key(
                (twinnet, device_id.bytes@),
            ) && !removal_queued(self.pending, twinnet, device_id),
            WriteModel::CausalityToken { twinnet, .. } => !self.causality.contains_key(twinnet),
            WriteModel::PeerRemoved { .. } | WriteModel::Session { .. } => false,
        }
    }

    /// The cache after a fact that the vault held was offered to it. Nothing is queued:
    /// the vault has it.
    pub open spec fn taken_back(self, w: WriteModel) -> PlanesModel {
        if self.takes_back(w) {
            self.applied(w)
        } else {
            self
        }
    }

    /// The cache after facts that the vault held were offered to it, one after the other.
    pub open spec fn all_taken_back(self, ws: Seq<WriteModel>) -> PlanesModel
        decreases ws.len(),
    {
        if ws.len() == 0 {
            self
        } else {
            self.all_taken_back(ws.drop_last()).taken_back(ws.last())
        }
    }

    /// A document may take the place of the one that is held: there is none, it is
    /// older, or it is the same content at the same version.
    pub open spec fn admits_document(
        self,
        twinnet: Seq<char>,
        doc_type: Seq<char>,
        version: u64,
        content_digest: [u8; 32],
    ) -> bool {
        self.documents.contains_key((twinnet, doc_type)) ==> {
            let held = self.documents[(twinnet, doc_type)];
            held.version < version || (held.version == version && held.content_digest
                == content_digest)
        }
    }

    /// Some twinnet holds a record of the peer whose tunnel key binding verified.
    pub open spec fn authorizes(self, peer: DeviceId) -> bool {
        exists|t: Seq<char>| #[trigger]
            self.peers.contains_key((t, peer.bytes@)) && self.peers[(t, peer.bytes@)].verified
    }
}

/// The write removes this peer.
pub open spec fn removes(w: WriteModel, twinnet: Seq<char>, device_id: DeviceId) -> bool {
    w matches WriteModel::PeerRemoved { twinnet: t, device_id: d, .. } && t == twinnet && d.bytes@
        == device_id.bytes@
}

/// One of these writes removes this peer.
pub open spec fn removal_queued(
    ws: Seq<WriteModel>,
    twinnet: Seq<char>,
    device_id: DeviceId,
) -> bool {
    exists|i: int| 0 <= i < ws.len() && removes(#[trigger] ws[i], twinnet, device_id)
}

/// The shared cache, and the queue of writes that are still to be made durable.
pub struct BridgeState {
    /// The event cursor of each twinnet.
    pub cursor: NameMap<u64>,
    /// The trust epoch of each twinnet.
    pub trust_epoch: NameMap<u64>,
    /// The documents of each twinnet, by type.
    pub documents: NameMap<NameMap<HeldDocument>>,
    /// The peers of each twinnet, by device identifier.
    pub peers: NameMap<OctetMap<PeerRecord>>,
    /// The causality token of each twinnet.
    pub causality: NameMap<Vec<u8>>,
    /// The writes still to be made durable, oldest first.
    pub pending: Vec<PendingWrite>,
    /// The last refusal that a flush published.
    pub last_refusal: Option<String>,
}

/// The two-level table of documents, as one map.
pub open spec fn documents_map(table: Map<Seq<char>, NameMap<HeldDocument>>) -> Map<
    (Seq<char>, Seq<char>),
    DocumentModel,
> {
    Map::new(
        |k: (Seq<char>, Seq<char>)| table.contains_key(k.0) && table[k.0]@.contains_key(k.1),
        |k: (Seq<char>, Seq<char>)| table[k.0]@[k.1]@,
    )
}

/// The two-level table of peers, as one map.
pub open spec fn peers_map(table: Map<Seq<char>, OctetMap<PeerRecord>>) -> Map<
    (Seq<char>, Seq<u8>),
    PeerModel,
> {
    Map::new(
        |k: (Seq<char>, Seq<u8>)| table.contains_key(k.0) && table[k.0]@.contains_key(k.1),
        |k: (Seq<char>, Seq<u8>)| table[k.0]@[k.1]@,
    )
}

impl BridgeState {
    /// Every table is well formed.
    pub open spec fn wf(self) -> bool {
        &&& self.cursor.wf()
        &&& self.trust_epoch.wf()
        &&& self.causality.wf()
        &&& self.documents.wf()
        &&& forall|t: Seq<char>| #[trigger]
            self.documents@.contains_key(t) ==> self.documents@[t].wf()
        &&& self.peers.wf()
        &&& forall|t: Seq<char>| #[trigger]
            self.peers@.contains_key(t) ==> self.peers@[t].wf()
    }

    /// The cache and the queue, as mathematics.
    pub open spec fn view(self) -> PlanesModel {
        PlanesModel {
            cursor: self.cursor@,
            trust_epoch: self.trust_epoch@,
            documents: documents_map(self.documents@),
            peers: peers_map(self.peers@),
            causality: self.causality@.map_values(|v: Vec<u8>| v@),
            pending: writes_view(self.pending@),
            last_refusal: match self.last_refusal {
                Some(s) => Some(s@),
                None => None,
            },
        }
    }

    /// A copy of the queue, oldest first.
    pub fn pending_snapshot(&self) -> (writes: Vec<PendingWrite>)
        ensures
            writes_view(writes@) == self@.pending,
    {
        let mut writes: Vec<PendingWrite> = Vec::new();
        let mut i: usize = 0;
        while i < self.pending.len()
            invariant
                i <= self.pending@.len(),
                writes@.len() == i,
                forall|j: int| 0 <= j < i ==> (#[trigger] writes@[j])@ == self.pending@[j]@,
            decreases self.pending@.len() - i,
        {
            writes.push(self.pending[i].clone());
            i += 1;
        }
        assert(writes_view(writes@) =~= self@.pending);
        writes
    }

    /// Drops the `count` oldest writes; what was queued after them stays.
    pub fn clear_pending(&mut self, count: usize)
        requires
            old(self).wf(),
        ensures
            final(self).wf(),
            final(self)@ == (PlanesModel {
                pending: old(self)@.pending.skip(
                    if count <= old(self)@.pending.len() {
                        count as int
                    } else {
                        old(self)@.pending.len() as int
                    },
                ),
                ..old(self)@
            }),
    {
        let at: usize = if count <= self.pending.len() { count } else { self.pending.len() };
        let keep = self.pending.split_off(at);
        self.pending = keep;
        assert(self@.pending =~= old(self)@.pending.skip(at as int));
    }

    /// Publishes, or clears, the refusal that the data plane can see.
    pub fn set_refusal(&mut self, refusal: Option<String>)
        requires
            old(self).wf(),
        ensures
            final(self).wf(),
            final(self)@ == (PlanesModel {
                last_refusal: match refusal {
                    Some(s) => Some(s@),
                    None => None,
                },
                ..old(self)@
            }),
    {
        self.last_refusal = refusal;
    }

    /// Queues a session record: the data plane's only door into the queue.
    pub fn push_session_write(&mut self, write: PendingWrite)
        requires
            old(self).wf(),
            write is Session,
        ensures
            final(self).wf(),
            final(self)@ == old(self)@.accepted(write@),
    {
        self.pending.push(write);
        assert(self@.pending =~= old(self)@.pending.push(write@));
    }
}

/// The state that both ports stand on.
pub type Shared = BridgeState;

/// An empty cache and an empty queue.
pub open spec fn nothing_admitted() -> PlanesModel {
    PlanesModel {
        cursor: Map::empty(),
        trust_epoch: Map::empty(),
        documents: Map::empty(),
        peers: Map::empty(),
        causality: Map::empty(),
        pending: Seq::empty(),
        last_refusal: None,
    }
}

/// An empty cache and an empty queue.
pub fn new_shared() -> (s: Shared)
    ensures
        s.wf(),
        s@ == nothing_admitted(),
{
    let s = BridgeState {
        cursor: NameMap::new(),
        trust_epoch: NameMap::new(),
        documents: NameMap::new(),
        peers: NameMap::new(),
        causality: NameMap::new(),
        pending: Vec::new(),
        last_refusal: None,
    };
    assert(s@.documents =~= Map::empty());
    assert(s@.peers =~= Map::empty());
    assert(s@.causality =~= Map::empty());
    assert(s@.pending =~= Seq::empty());
    s
}

/// The control plane's port: the only way a control-plane fact enters the cache.
pub struct ControlPlanePort {
    /// What the port writes to.
    pub shared: Shared,
}

impl ControlPlanePort {
    /// What the port writes to is well formed.
    pub open spec fn wf(self) -> bool {
        self.shared.wf()
    }

    /// The cache and the queue behind the port.
    pub open spec fn view(self) -> PlanesModel {
        self.shared@
    }

    /// The port onto `shared`.
    pub fn new(shared: Shared) -> (port: Self)
        ensures
            port.shared == shared,
    {
        ControlPlanePort { shared }
    }

    /// Applies one write to the cache and queues it.
    fn record(&mut self, write: PendingWrite)
        requires
            old(self).wf(),
        ensures
            final(self).wf(),
            final(self)@ == old(self)@.accepted(write@),
    {
        self.apply(&write);
        let ghost applied = self@;
        self.shared.pending.push(write);
        assert(self@.pending =~= applied.pending.push(write@));
    }

    /// Applies one write to the cache; the queue stays as it is.
    fn apply(&mut self, write: &PendingWrite)
        requires
            old(self).wf(),
        ensures
            final(self).wf(),
            final(self)@ == old(self)@.applied(write@),
    {
        let ghost before = self@;
        match write {
            PendingWrite::Cursor { twinnet, net_seq } => {
                self.shared.cursor.insert(twinnet.text.clone(), *net_seq);
            },
            PendingWrite::TrustEpoch { twinnet, epoch } => {
                self.shared.trust_epoch.insert(twinnet.text.clone(), *epoch);
            },
            PendingWrite::Document { twinnet, doc_type, version, content_digest, payload } => {
                let held = HeldDocument {
                    version: *version,
                    content_digest: *content_digest,
                    payload: octets::to_vec(payload.as_slice()),
                };
                self.hold(&twinnet.text, doc_type, held);
            },
            PendingWrite::Peer { twinnet, device_id, record } => {
                self.keep(&twinnet.text, device_id, record.clone());
            },
            PendingWrite::PeerRemoved { twinnet, device_id, .. } => {
                self.forget(&twinnet.text, device_id);
            },
            PendingWrite::CausalityToken { twinnet, token } => {
                self.shared.causality.insert(
                    twinnet.text.clone(),
                    octets::to_vec(token.as_slice()),
                );
                assert(self@.causality =~= before.causality.insert(twinnet@, token@));
            },
            PendingWrite::Session { .. } => {},
        }
    }

    /// Whether a queued write removes this peer.
    fn has_removal_queued(&self, twinnet: &TwinnetId, device_id: &DeviceId) -> (b: bool)
        ensures
            b == removal_queued(self@.pending, twinnet@, *device_id),
    {
        let mut i: usize = 0;
        while i < self.shared.pending.len()
            invariant
                i <= self.shared.pending@.len(),
                forall|j: int|
                    0 <= j < i ==> !removes(#[trigger] self@.pending[j], twinnet@, *device_id),
            decreases self.shared.pending@.len() - i,
        {
            assert(self@.pending[i as int] == self.shared.pending@[i as int]@);
            if let PendingWrite::PeerRemoved { twinnet: t, device_id: d, .. } =
                &self.shared.pending[i] {
                if same_text(t.as_str(), twinnet.as_str()) && octets::same(
                    d.bytes.as_slice(),
                    device_id.bytes.as_slice(),
                ) {
                    assert(removes(self@.pending[i as int], twinnet@, *device_id));
                    return true;
                }
            }
            i += 1;
        }
        false
    }

    /// Whether the cache may take a fact that the vault held.
    fn may_take_back(&self, write: &PendingWrite) -> (b: bool)
        requires
            self.wf(),
        ensures
            b == self@.takes_back(write@),
    {
        match write {
            PendingWrite::Cursor { twinnet, net_seq } => match self.shared.cursor.get(
                &twinnet.text,
            ) {
                Some(known) => *known < *net_seq,
                None => true,
            },
            PendingWrite::TrustEpoch { twinnet, epoch } => match self.shared.trust_epoch.get(
                &twinnet.text,
            ) {
                Some(known) => *known < *epoch,
                None => true,
            },
            PendingWrite::Document { twinnet, doc_type, version, .. } => match document_version_of(
                &self.shared,
                twinnet,
                doc_type,
            ) {
                Some(known) => known < *version,
                None => true,
            },
            PendingWrite::Peer { twinnet, device_id, .. } => {
                let known = match self.shared.peers.get(&twinnet.text) {
                    Some(inner) => inner.contains(device_id.bytes.as_slice()),
                    None => false,
                };
                assert(known == self@.peers.contains_key((twinnet@, device_id.bytes@)));
                !known && !self.has_removal_queued(twinnet, device_id)
            },
            PendingWrite::CausalityToken { twinnet, .. } => self.shared.causality.get(
                &twinnet.text,
            ).is_none(),
            PendingWrite::PeerRemoved { .. } | PendingWrite::Session { .. } => false,
        }
    }

    /// Offers the cache what the vault held, one fact after the other. Nothing is queued.
    pub fn take_back(&mut self, facts: &Vec<PendingWrite>)
        requires
            old(self).wf(),
        ensures
            final(self).wf(),
            final(self)@ == old(self)@.all_taken_back(writes_view(facts@)),
    {
        let ghost ws = writes_view(facts@);
        let mut i: usize = 0;
        assert(ws.take(0) =~= Seq::<WriteModel>::empty());
        while i < facts.len()
            invariant
                i <= facts@.len(),
                ws == writes_view(facts@),
                self.wf(),
                self@ == old(self)@.all_taken_back(ws.take(i as int)),
            decreases facts@.len() - i,
        {
            if self.may_take_back(&facts[i]) {
                self.apply(&facts[i]);
            }
            assert(ws.take(i + 1).drop_last() =~= ws.take(i as int));
            assert(ws.take(i + 1).last() == facts@[i as int]@);
            i += 1;
        }
        assert(ws.take(ws.len() as int) =~= ws);
    }

    /// Puts a document in the cache.
    fn hold(&mut self, twinnet: &String, doc_type: &str, held: HeldDocument)
        requires
            old(self).wf(),
        ensures
            final(self).wf(),
            final(self)@ == (PlanesModel {
                documents: old(self)@.documents.insert((twinnet@, doc_type@), held@),
                ..old(self)@
            }),
    {
        let mut inner = match self.shared.documents.remove(twinnet) {
            Some(inner) => inner,
            None => NameMap::new(),
        };
        inner.insert(doc_type.to_owned(), held);
        self.shared.documents.insert(twinnet.clone(), inner);
        assert(self@.documents =~= old(self)@.documents.insert((twinnet@, doc_type@), held@));
    }

    /// Puts a peer's record in the cache.
    fn keep(&mut self, twinnet: &String, device_id: &DeviceId, record: PeerRecord)
        requires
            old(self).wf(),
        ensures
            final(self).wf(),
            final(self)@ == (PlanesModel {
                peers: old(self)@.peers.insert((twinnet@, device_id.bytes@), record@),
                ..old(self)@
            }),
    {
        let mut inner = match self.shared.peers.remove(twinnet) {
            Some(inner) => inner,
            None => OctetMap::new(),
        };
        inner.insert(octets::to_vec(device_id.bytes.as_slice()), record);
        self.shared.peers.insert(twinnet.clone(), inner);
        assert(self@.peers =~= old(self)@.peers.insert((twinnet@, device_id.bytes@), record@));
    }

    /// Takes a peer's record out of the cache.
    fn forget(&mut self, twinnet: &String, device_id: &DeviceId)
        requires
            old(self).wf(),
        ensures
            final(self).wf(),
            final(self)@ == (PlanesModel {
                peers: old(self)@.peers.remove((twinnet@, device_id.bytes@)),
                ..old(self)@
            }),
    {
        match self.shared.peers.remove(twinnet) {
            Some(mut inner) => {
                let _ = inner.remove(device_id.bytes.as_slice());
                self.shared.peers.insert(twinnet.clone(), inner);
            },
            None => {},
        }
        assert(self@.peers =~= old(self)@.peers.remove((twinnet@, device_id.bytes@)));
    }

    /// The durable cursor of a twinnet, or 0 if it never attached.
    #[must_use]
    pub fn cursor(&self, twinnet: &TwinnetId) -> (net_seq: u64)
        requires
            self.wf(),
        ensures
            net_seq == (if self@.cursor.contains_key(twinnet@) {
                self@.cursor[twinnet@]
            } else {
                0
            }),
    {
        match self.shared.cursor.get(&twinnet.text) {
            Some(net_seq) => *net_seq,
            None => 0,
        }
    }

    /// Advances the cursor. A value at or below the stored one is refused, and
    /// leaves everything as it was.
    #[must_use]
    pub fn advance_cursor(&mut self, twinnet: &TwinnetId, net_seq: u64) -> (advanced: bool)
        requires
            old(self).wf(),
        ensures
            final(self).wf(),
            advanced == admissible(
                old(self)@,
                WriteModel::Cursor { twinnet: twinnet@, net_seq },
            ),
            advanced ==> final(self)@ == old(self)@.accepted(
                WriteModel::Cursor { twinnet: twinnet@, net_seq },
            ),
            !advanced ==> final(self)@ == old(self)@,
    {
        if let Some(stored) = self.shared.cursor.get(&twinnet.text) {
            if net_seq <= *stored {
                return false;
            }
        }
        self.record(PendingWrite::Cursor { twinnet: twinnet.clone(), net_seq });
        true
    }

    /// The trust epoch of a twinnet, or 0 if none was admitted.
    #[must_use]
    pub fn trust_epoch(&self, twinnet: &TwinnetId) -> (epoch: u64)
        requires
            self.wf(),
        ensures
            epoch == (if self@.trust_epoch.contains_key(twinnet@) {
                self@.trust_epoch[twinnet@]
            } else {
                0
            }),
    {
        match self.shared.trust_epoch.get(&twinnet.text) {
            Some(epoch) => *epoch,
            None => 0,
        }
    }

    /// Advances the trust epoch. It never decreases: a lower one is refused, and
    /// leaves everything as it was.
    #[must_use]
    pub fn advance_trust_epoch(&mut self, twinnet: &TwinnetId, epoch: u64) -> (advanced: bool)
        requires
            old(self).wf(),
        ensures
            final(self).wf(),
            advanced == admissible(
                old(self)@,
                WriteModel::TrustEpoch { twinnet: twinnet@, epoch },
            ),
            advanced ==> final(self)@ == old(self)@.accepted(
                WriteModel::TrustEpoch { twinnet: twinnet@, epoch },
            ),
            !advanced ==> final(self)@ == old(self)@,
    {
        if epoch < self.trust_epoch(twinnet) {
            return false;
        }
        self.record(PendingWrite::TrustEpoch { twinnet: twinnet.clone(), epoch });
        true
    }

    /// Stores a verified document by its verified octets. An older version is
    /// refused, and so is other content at the version that is held; a refusal
    /// leaves everything as it was.
    #[must_use]
    pub fn put_document(
        &mut self,
        twinnet: &TwinnetId,
        doc_type: &'static str,
        version: u64,
        content_digest: [u8; 32],
        payload: &[u8],
    ) -> (stored: bool)
        requires
            old(self).wf(),
        ensures
            final(self).wf(),
            stored == admissible(
                old(self)@,
                WriteModel::Document {
                    twinnet: twinnet@,
                    doc_type: doc_type@,
                    version,
                    content_digest,
                    payload: payload@,
                },
            ),
            stored ==> final(self)@ == old(self)@.accepted(
                WriteModel::Document {
                    twinnet: twinnet@,
                    doc_type: doc_type@,
                    version,
                    content_digest,
                    payload: payload@,
                },
            ),
            !stored ==> final(self)@ == old(self)@,
    {
        if let Some(inner) = self.shared.documents.get(&twinnet.text) {
            if let Some(held) = inner.get(&doc_type.to_owned()) {
                assert(self@.documents.contains_key((twinnet@, doc_type@)));
                assert(self@.documents[(twinnet@, doc_type@)] == held@);
                if version < held.version {
                    return false;
                }
                let equal = octets::same(held.content_digest.as_slice(), content_digest.as_slice());
                proof {
                    if equal {
                        assert(held.content_digest =~= content_digest);
                    }
                }
                if version == held.version && !equal {
                    return false;
                }
            }
        }
        self.record(
            PendingWrite::Document {
                twinnet: twinnet.clone(),
                doc_type,
                version,
                content_digest,
                payload: octets::to_vec(payload),
            },
        );
        true
    }

    /// Replaces one peer's cached record.
    pub fn put_peer(&mut self, twinnet: &TwinnetId, record: PeerRecord)
        requires
            old(self).wf(),
        ensures
            final(self).wf(),
            final(self)@ == old(self)@.accepted(
                WriteModel::Peer {
                    twinnet: twinnet@,
                    device_id: record.device_id,
                    record: record@,
                },
            ),
    {
        let device_id = record.device_id;
        self.record(PendingWrite::Peer { twinnet: twinnet.clone(), device_id, record });
    }

    /// Removes a peer, recording the registered code that did it.
    pub fn remove_peer(&mut self, twinnet: &TwinnetId, device_id: DeviceId, reason_code: &str)
        requires
            old(self).wf(),
        ensures
            final(self).wf(),
            final(self)@ == old(self)@.accepted(
                WriteModel::PeerRemoved {
                    twinnet: twinnet@,
                    device_id,
                    reason_code: reason_code@,
                },
            ),
    {
        self.record(
            PendingWrite::PeerRemoved {
                twinnet: twinnet.clone(),
                device_id,
                reason_code: reason_code.to_owned(),
            },
        );
    }

    /// The version of a document that is held.
    #[must_use]
    pub fn document_version(&self, twinnet: &TwinnetId, doc_type: &'static str) -> (v: Option<u64>)
        requires
            self.wf(),
        ensures
            v == held_version(self@, twinnet@, doc_type@),
    {
        document_version_of(&self.shared, twinnet, doc_type)
    }

    /// The causality token of a twinnet.
    #[must_use]
    pub fn causality_token(&self, twinnet: &TwinnetId) -> (token: Option<Vec<u8>>)
        requires
            self.wf(),
        ensures
            optional_octets(token) == (if self@.causality.contains_key(twinnet@) {
                Some(self@.causality[twinnet@])
            } else {
                None
            }),
    {
        match self.shared.causality.get(&twinnet.text) {
            Some(token) => Some(octets::to_vec(token.as_slice())),
            None => None,
        }
    }

    /// What the port writes to, for the data plane to read.
    #[must_use]
    pub fn shared(&self) -> (shared: &Shared)
        ensures
            *shared == self.shared,
    {
        &self.shared
    }

    /// Replaces the causality token of a twinnet.
    pub fn put_causality_token(&mut self, twinnet: &TwinnetId, token: &[u8])
        requires
            old(self).wf(),
        ensures
            final(self).wf(),
            final(self)@ == old(self)@.accepted(
                WriteModel::CausalityToken { twinnet: twinnet@, token: token@ },
            ),
    {
        self.record(
            PendingWrite::CausalityToken { twinnet: twinnet.clone(), token: octets::to_vec(token) },
        );
    }
}

/// The version of the document held for a twinnet and a type, if one is.
pub open spec fn held_version(m: PlanesModel, twinnet: Seq<char>, doc_type: Seq<char>) -> Option<
    u64,
> {
    if m.documents.contains_key((twinnet, doc_type)) {
        Some(m.documents[(twinnet, doc_type)].version)
    } else {
        None
    }
}

fn document_version_of(shared: &Shared, twinnet: &TwinnetId, doc_type: &str) -> (v: Option<u64>)
    requires
        shared.wf(),
    ensures
        v == held_version(shared@, twinnet@, doc_type@),
{
    match shared.documents.get(&twinnet.text) {
        Some(inner) => match inner.get(&doc_type.to_owned()) {
            Some(held) => Some(held.version),
            None => None,
        },
        None => None,
    }
}

/// The data plane's view: what was admitted, to read and never to write.
pub struct DataPlaneView<'a> {
    /// What the view reads.
    pub shared: &'a Shared,
}

impl<'a> DataPlaneView<'a> {
    /// What the view reads is well formed.
    pub open spec fn wf(self) -> bool {
        self.shared.wf()
    }

    /// The cache and the queue behind the view.
    pub open spec fn view(self) -> PlanesModel {
        self.shared@
    }

    /// The view of `shared`.
    pub fn new(shared: &'a Shared) -> (v: Self)
        ensures
            v.shared == shared,
    {
        DataPlaneView { shared }
    }

    /// The trust epoch of a twinnet, or 0 if none was admitted.
    #[must_use]
    pub fn trust_epoch(&self, twinnet: &TwinnetId) -> (epoch: u64)
        requires
            self.wf(),
        ensures
            epoch == (if self@.trust_epoch.contains_key(twinnet@) {
                self@.trust_epoch[twinnet@]
            } else {
                0
            }),
    {
        match self.shared.trust_epoch.get(&twinnet.text) {
            Some(epoch) => *epoch,
            None => 0,
        }
    }

    /// A peer's cached record.
    #[must_use]
    pub fn peer(&self, twinnet: &TwinnetId, device_id: DeviceId) -> (r: Option<PeerRecord>)
        requires
            self.wf(),
        ensures
            match r {
                Some(record) => self@.peers.contains_key((twinnet@, device_id.bytes@)) && record@
                    == self@.peers[(twinnet@, device_id.bytes@)],
                None => !self@.peers.contains_key((twinnet@, device_id.bytes@)),
            },
    {
        match self.shared.peers.get(&twinnet.text) {
            Some(inner) => match inner.get(device_id.bytes.as_slice()) {
                Some(record) => Some(record.clone()),
                None => None,
            },
            None => None,
        }
    }

    /// Every cached record of a twinnet, in ascending order of the device
    /// identifiers.
    #[must_use]
    pub fn peers(&self, twinnet: &TwinnetId) -> (records: Vec<PeerRecord>)
        requires
            self.wf(),
        ensures
            exists|order: Seq<Seq<u8>>| #[trigger]
                lists_peers(self@, twinnet@, order, records@),
    {
        let mut records: Vec<PeerRecord> = Vec::new();
        match self.shared.peers.get(&twinnet.text) {
            Some(inner) => {
                let n: usize = inner.len();
                let ghost order = inner.order();
                let mut i: usize = 0;
                while i < n
                    invariant
                        i <= n == order.len(),
                        inner.wf(),
                        inner.order() == order,
                        records@.len() == i,
                        forall|j: int|
                            0 <= j < i ==> (#[trigger] records@[j])@ == inner@[order[j]]@,
                    decreases n - i,
                {
                    records.push(inner.value_at(i).clone());
                    i += 1;
                }
                proof {
                    assert forall|k: Seq<u8>| #[trigger] order.contains(k)
                        == self@.peers.contains_key((twinnet@, k)) by {
                        assert(inner@.contains_key(k) <==> order.contains(k));
                    }
                    assert forall|j: int| 0 <= j < records@.len() implies (#[trigger] records@[j])@
                        == self@.peers[(twinnet@, order[j])] by {
                        assert(order.contains(order[j]));
                    }
                    assert(lists_peers(self@, twinnet@, order, records@));
                }
            },
            None => {
                proof {
                    let order = Seq::<Seq<u8>>::empty();
                    assert(lists_peers(self@, twinnet@, order, records@));
                }
            },
        }
        records
    }

    /// The octets of a document that is held, verbatim.
    #[must_use]
    pub fn document(&self, twinnet: &TwinnetId, doc_type: &'static str) -> (d: Option<Vec<u8>>)
        requires
            self.wf(),
        ensures
            optional_octets(d) == (if self@.documents.contains_key((twinnet@, doc_type@)) {
                Some(self@.documents[(twinnet@, doc_type@)].payload)
            } else {
                None
            }),
    {
        match self.shared.documents.get(&twinnet.text) {
            Some(inner) => match inner.get(&doc_type.to_owned()) {
                Some(held) => Some(octets::to_vec(held.payload.as_slice())),
                None => None,
            },
            None => None,
        }
    }

    /// The version of a document that is held.
    #[must_use]
    pub fn document_version(&self, twinnet: &TwinnetId, doc_type: &'static str) -> (v: Option<u64>)
        requires
            self.wf(),
        ensures
            v == held_version(self@, twinnet@, doc_type@),
    {
        document_version_of(self.shared, twinnet, doc_type)
    }

    /// The last refusal that a flush published.
    #[must_use]
    pub fn last_refusal(&self) -> (r: Option<String>)
        ensures
            match r {
                Some(s) => self@.last_refusal == Some(s@),
                None => self@.last_refusal is None,
            },
    {
        match &self.shared.last_refusal {
            Some(s) => Some(s.clone()),
            None => None,
        }
    }

    /// Whether a peer may be connected to: some twinnet holds a record of it whose
    /// tunnel key binding verified. Having heard of the device is not enough.
    #[must_use]
    pub fn peer_authorized(&self, peer: DeviceId) -> (b: bool)
        requires
            self.wf(),
        ensures
            b == self@.authorizes(peer),
    {
        let n: usize = self.shared.peers.len();
        let ghost list = self.shared.peers.listing();
        let mut i: usize = 0;
        while i < n
            invariant
                i <= n == list.len(),
                self.wf(),
                list == self.shared.peers.listing(),
                forall|k: Seq<char>| self.shared.peers@.contains_key(k) <==> list.contains(k),
                forall|j: int|
                    0 <= j < i ==> !(self@.peers.contains_key((#[trigger] list[j], peer.bytes@))
                        && self@.peers[(list[j], peer.bytes@)].verified),
            decreases n - i,
        {
            let inner = self.shared.peers.value_at(i);
            assert(self.shared.peers@.contains_key(list[i as int]));
            if let Some(record) = inner.get(peer.bytes.as_slice()) {
                if record.tunnel_key_binding_verified {
                    assert(self@.peers.contains_key((list[i as int], peer.bytes@)));
                    return true;
                }
            }
            i += 1;
        }
        proof {
            if self@.authorizes(peer) {
                let t = choose|t: Seq<char>| #[trigger]
                    self@.peers.contains_key((t, peer.bytes@)) && self@.peers[(
                        t,
                        peer.bytes@,
                    )].verified;
                assert(list.contains(t));
                let j = choose|j: int| 0 <= j < list.len() && list[j] == t;
                assert(list[j] == t);
            }
        }
        false
    }
}

/// `records` holds the record of every peer of the twinnet, in the order of the
/// identifiers `order`, which ascend.
pub open spec fn lists_peers(
    m: PlanesModel,
    twinnet: Seq<char>,
    order: Seq<Seq<u8>>,
    records: Seq<PeerRecord>,
) -> bool {
    &&& crate::table::ascending(order)
    &&& forall|k: Seq<u8>| #[trigger] order.contains(k) == m.peers.contains_key((twinnet, k))
    &&& records.len() == order.len()
    &&& forall|i: int| 0 <= i < records.len() ==> (#[trigger] records[i])@ == m.peers[(
        twinnet,
        order[i],
    )]
}

/// A write that the control-plane port accepts in state `m`.
pub open spec fn admissible(m: PlanesModel, w: WriteModel) -> bool {
    match w {
        WriteModel::Cursor { twinnet, net_seq } => m.cursor.contains_key(twinnet)
            ==> m.cursor[twinnet] < net_seq,
        WriteModel::TrustEpoch { twinnet, epoch } => m.trust_epoch.contains_key(twinnet)
            ==> m.trust_epoch[twinnet] <= epoch,
        WriteModel::Document { twinnet, doc_type, version, content_digest, .. } =>
            m.admits_document(twinnet, doc_type, version, content_digest),
        WriteModel::Session { .. } => false,
        _ => true,
    }
}

/// Each write of the run is accepted in the state that the ones before it left.
pub open spec fn all_admissible(m: PlanesModel, ws: Seq<WriteModel>) -> bool
    decreases ws.len(),
{
    ws.len() == 0 || (all_admissible(m, ws.drop_last()) && admissible(
        after_run(m, ws.drop_last()),
        ws.last(),
    ))
}

/// The state that a run of accepted writes leaves.
pub open spec fn after_run(m: PlanesModel, ws: Seq<WriteModel>) -> PlanesModel
    decreases ws.len(),
{
    if ws.len() == 0 {
        m
    } else {
        after_run(m, ws.drop_last()).accepted(ws.last())
    }
}

/// Every mark of `a` is kept or raised in `b`, and a document whose version stayed
/// kept its content.
pub open spec fn marks_kept(a: PlanesModel, b: PlanesModel) -> bool {
    &&& forall|t: Seq<char>| #[trigger]
        a.cursor.contains_key(t) ==> b.cursor.contains_key(t) && a.cursor[t] <= b.cursor[t]
    &&& forall|t: Seq<char>| #[trigger]
        a.trust_epoch.contains_key(t) ==> b.trust_epoch.contains_key(t) && a.trust_epoch[t]
            <= b.trust_epoch[t]
    &&& forall|k: (Seq<char>, Seq<char>)| #[trigger]
        a.documents.contains_key(k) ==> {
            &&& b.documents.contains_key(k)
            &&& a.documents[k].version <= b.documents[k].version
            &&& a.documents[k].version == b.documents[k].version ==> a.documents[k].content_digest
                == b.documents[k].content_digest
        }
}

/// No run of accepted writes moves a cursor, a trust epoch or a document version
/// backwards, or puts other content at a version that is held.
pub proof fn marks_never_go_backwards(m: PlanesModel, ws: Seq<WriteModel>)
    requires
        all_admissible(m, ws),
    ensures
        marks_kept(m, after_run(m, ws)),
    decreases ws.len(),
{
    if ws.len() > 0 {
        marks_never_go_backwards(m, ws.drop_last());
        let mid = after_run(m, ws.drop_last());
        let end = mid.accepted(ws.last());
        assert(marks_kept(mid, end));
        assert forall|k: (Seq<char>, Seq<char>)| #[trigger] m.documents.contains_key(k) implies {
            &&& end.documents.contains_key(k)
            &&& m.documents[k].version <= end.documents[k].version
            &&& m.documents[k].version == end.documents[k].version
                ==> m.documents[k].content_digest == end.documents[k].content_digest
        } by {
            assert(mid.documents.contains_key(k));
        }
        assert forall|t: Seq<char>| #[trigger] m.cursor.contains_key(t) implies
            end.cursor.contains_key(t) && m.cursor[t] <= end.cursor[t] by {
            assert(mid.cursor.contains_key(t));
        }
        assert forall|t: Seq<char>| #[trigger] m.trust_epoch.contains_key(t) implies
            end.trust_epoch.contains_key(t) && m.trust_epoch[t] <= end.trust_epoch[t] by {
            assert(mid.trust_epoch.contains_key(t));
        }
    }
}

/// What the vault held lowers nothing that is known: no mark goes backwards, every peer
/// and token that was known stays as it was, and the queue is untouched.
pub proof fn taking_back_lowers_nothing(m: PlanesModel, ws: Seq<WriteModel>)
    ensures
        ({
            let after = m.all_taken_back(ws);
            &&& marks_kept(m, after)
            &&& m.peers.submap_of(after.peers)
            &&& m.causality.submap_of(after.causality)
            &&& after.pending == m.pending
            &&& after.last_refusal == m.last_refusal
        }),
    decreases ws.len(),
{
    if ws.len() > 0 {
        taking_back_lowers_nothing(m, ws.drop_last());
        let mid = m.all_taken_back(ws.drop_last());
        let end = mid.taken_back(ws.last());
        assert(marks_kept(mid, end));
        assert forall|k: (Seq<char>, Seq<char>)| #[trigger] m.documents.contains_key(k) implies {
            &&& end.documents.contains_key(k)
            &&& m.documents[k].version <= end.documents[k].version
            &&& m.documents[k].version == end.documents[k].version
                ==> m.documents[k].content_digest == end.documents[k].content_digest
        } by {
            assert(mid.documents.contains_key(k));
        }
        assert forall|t: Seq<char>| #[trigger] m.cursor.contains_key(t) implies
            end.cursor.contains_key(t) && m.cursor[t] <= end.cursor[t] by {
            assert(mid.cursor.contains_key(t));
        }
        assert forall|t: Seq<char>| #[trigger] m.trust_epoch.contains_key(t) implies
            end.trust_epoch.contains_key(t) && m.trust_epoch[t] <= end.trust_epoch[t] by {
            assert(mid.trust_epoch.contains_key(t));
        }
    }
}

/// A peer whose removal is queued does not come back.
pub proof fn a_removed_peer_stays_gone(
    m: PlanesModel,
    ws: Seq<WriteModel>,
    twinnet: Seq<char>,
    device_id: DeviceId,
)
    requires
        removal_queued(m.pending, twinnet, device_id),
        !m.peers.contains_key((twinnet, device_id.bytes@)),
    ensures
        !m.all_taken_back(ws).peers.contains_key((twinnet, device_id.bytes@)),
    decreases ws.len(),
{
    if ws.len() > 0 {
        a_removed_peer_stays_gone(m, ws.drop_last(), twinnet, device_id);
        taking_back_lowers_nothing(m, ws.drop_last());
        if let WriteModel::Peer { twinnet: t, device_id: d, .. } = ws.last() {
            if t == twinnet && d.bytes@ == device_id.bytes@ {
                assert(d.bytes =~= device_id.bytes);
            }
        }
    }
}

/// Every accepted write is queued, once and in the order it was accepted: none is
/// dropped.
pub proof fn accepted_writes_are_queued_in_order(m: PlanesModel, ws: Seq<WriteModel>)
    ensures
        after_run(m, ws).pending == m.pending + ws,
    decreases ws.len(),
{
    if ws.len() > 0 {
        accepted_writes_are_queued_in_order(m, ws.drop_last());
        assert(m.pending + ws =~= (m.pending + ws.drop_last()).push(ws.last()));
    } else {
        assert(m.pending + ws =~= m.pending);
    }
}

/// Dropping the writes that were queued when a flush began leaves exactly those
/// that were accepted since.
pub proof fn a_flush_keeps_later_writes(m: PlanesModel, ws: Seq<WriteModel>)
    ensures
        after_run(m, ws).pending.skip(m.pending.len() as int) == ws,
{
    accepted_writes_are_queued_in_order(m, ws);
    assert((m.pending + ws).skip(m.pending.len() as int) =~= ws);
}

/// What the control plane writes of a peer is what the data plane then reads, and
/// no other peer changes.
pub proof fn a_written_peer_is_read_back(
    m: PlanesModel,
    twinnet: Seq<char>,
    device_id: DeviceId,
    record: PeerModel,
    other: (Seq<char>, Seq<u8>),
)
    ensures
        ({
            let after = m.accepted(WriteModel::Peer { twinnet, device_id, record });
            let key = (twinnet, device_id.bytes@);
            &&& after.peers.contains_key(key)
            &&& after.peers[key] == record
            &&& other != key ==> after.peers.contains_key(other) == m.peers.contains_key(other)
            &&& other != key && m.peers.contains_key(other) ==> after.peers[other]
                == m.peers[other]
        }),
{
}

/// A removed peer is no longer read, and nothing else about the cache changes.
pub proof fn a_removed_peer_is_gone(
    m: PlanesModel,
    twinnet: Seq<char>,
    device_id: DeviceId,
    reason_code: Seq<char>,
)
    ensures
        ({
            let after = m.accepted(WriteModel::PeerRemoved { twinnet, device_id, reason_code });
            let key = (twinnet, device_id.bytes@);
            &&& !after.peers.contains_key(key)
            &&& after.peers == m.peers.remove(key)
            &&& after.cursor == m.cursor
            &&& after.trust_epoch == m.trust_epoch
            &&& after.documents == m.documents
            &&& after.causality == m.causality
        }),
{
}

/// A document is read back as the octets that were written, verbatim.
pub proof fn a_document_is_stored_verbatim(
    m: PlanesModel,
    twinnet: Seq<char>,
    doc_type: Seq<char>,
    version: u64,
    content_digest: [u8; 32],
    payload: Seq<u8>,
)
    ensures
        ({
            let after = m.accepted(
                WriteModel::Document { twinnet, doc_type, version, content_digest, payload },
            );
            &&& after.documents.contains_key((twinnet, doc_type))
            &&& after.documents[(twinnet, doc_type)].payload == payload
            &&& held_version(after, twinnet, doc_type) == Some(version)
        }),
{
}

} // verus!
