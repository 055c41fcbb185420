//! The control-plane client's store: the one path between the planes.

use vstd::prelude::*;

use crate::planes::{
    copy_endpoints, held_version, lists_peers, optional_octets, ControlPlanePort, DataPlaneView,
    PeerModel, PeerRecord, PlanesModel, WriteModel,
};
use crate::types::{DeviceId, Endpoint, OverlayAddresses, TwinnetId};

verus! {

/// Why a write was refused.
#[derive(Debug, Clone, Copy, PartialEq, Eq, Structural)]
pub enum StoreFailure {
    /// It would go below what is held.
    RollbackRefused {
        /// What was offered.
        offered: u64,
        /// What is held.
        floor: u64,
    },
    /// It is other content at the version that is held.
    Forked {
        /// The version.
        version: u64,
    },
}

/// A peer, as the control-plane client holds it.
#[derive(Debug)]
pub struct CachedPeer {
    /// The peer.
    pub device_id: DeviceId,
    /// The peer's record generation.
    pub generation: u32,
    /// The generation of the peer's tunnel key.
    pub tk_generation: u32,
    /// Whether the binding of the tunnel key to the peer verified.
    pub tunnel_key_binding_verified: bool,
    /// Where the peer was last reachable.
    pub endpoints: Vec<Endpoint>,
    /// The peer's overlay addresses.
    pub overlay: OverlayAddresses,
}

impl CachedPeer {
    /// What the peer's record says.
    pub open spec fn view(self) -> PeerModel {
        PeerModel {
            device_id: self.device_id,
            generation: self.generation,
            tk_generation: self.tk_generation,
            verified: self.tunnel_key_binding_verified,
            endpoints: self.endpoints@,
            overlay: self.overlay,
        }
    }
}

/// When a held document is to be refreshed, and when it ends.
#[derive(Debug, Clone, Copy, PartialEq, Eq, Structural)]
pub struct StoredDocumentMark {
    /// Its version.
    pub version: u64,
    /// When it was issued, in milliseconds.
    pub issued_at_ms: u64,
    /// When it is to be refreshed.
    pub refresh_after_ms: u64,
    /// When it ends.
    pub not_after_ms: u64,
}

fn to_record(peer: &CachedPeer) -> (record: PeerRecord)
    ensures
        record@ == peer@,
{
    PeerRecord {
        device_id: peer.device_id,
        generation: peer.generation,
        tk_generation: peer.tk_generation,
        tunnel_key_binding_verified: peer.tunnel_key_binding_verified,
        endpoints: copy_endpoints(&peer.endpoints),
        overlay: peer.overlay,
    }
}

fn to_cached(record: &PeerRecord) -> (peer: CachedPeer)
    ensures
        peer@ == record@,
{
    CachedPeer {
        device_id: record.device_id,
        generation: record.generation,
        tk_generation: record.tk_generation,
        tunnel_key_binding_verified: record.tunnel_key_binding_verified,
        endpoints: copy_endpoints(&record.endpoints),
        overlay: record.overlay,
    }
}

/// The cursor of a twinnet, or 0.
pub open spec fn cursor_floor(m: PlanesModel, twinnet: Seq<char>) -> u64 {
    if m.cursor.contains_key(twinnet) {
        m.cursor[twinnet]
    } else {
        0
    }
}

/// The trust epoch of a twinnet, or 0.
pub open spec fn epoch_floor(m: PlanesModel, twinnet: Seq<char>) -> u64 {
    if m.trust_epoch.contains_key(twinnet) {
        m.trust_epoch[twinnet]
    } else {
        0
    }
}

/// What advancing a cursor leaves and answers.
pub open spec fn cursor_advanced(
    m: PlanesModel,
    twinnet: Seq<char>,
    net_seq: u64,
    after: PlanesModel,
    r: Result<(), StoreFailure>,
) -> bool {
    &&& r == (if m.cursor.contains_key(twinnet) && net_seq <= m.cursor[twinnet] {
        Err::<(), StoreFailure>(
            StoreFailure::RollbackRefused { offered: net_seq, floor: cursor_floor(m, twinnet) },
        )
    } else {
        Ok::<(), StoreFailure>(())
    })
    &&& r is Ok ==> after == m.accepted(WriteModel::Cursor { twinnet, net_seq })
    &&& r is Err ==> after == m
}

/// What advancing a trust epoch leaves and answers.
pub open spec fn epoch_advanced(
    m: PlanesModel,
    twinnet: Seq<char>,
    epoch: u64,
    after: PlanesModel,
    r: Result<(), StoreFailure>,
) -> bool {
    &&& r == (if epoch < epoch_floor(m, twinnet) {
        Err::<(), StoreFailure>(
            StoreFailure::RollbackRefused { offered: epoch, floor: epoch_floor(m, twinnet) },
        )
    } else {
        Ok::<(), StoreFailure>(())
    })
    &&& r is Ok ==> after == m.accepted(WriteModel::TrustEpoch { twinnet, epoch })
    &&& r is Err ==> after == m
}

/// What storing a document leaves and answers.
pub open spec fn document_put(
    m: PlanesModel,
    twinnet: Seq<char>,
    doc_type: Seq<char>,
    version: u64,
    content_digest: [u8; 32],
    payload: Seq<u8>,
    after: PlanesModel,
    r: Result<(), StoreFailure>,
) -> bool {
    &&& r == (if m.admits_document(twinnet, doc_type, version, content_digest) {
        Ok::<(), StoreFailure>(())
    } else {
        match held_version(m, twinnet, doc_type) {
            Some(floor) if version < floor => Err::<(), StoreFailure>(
                StoreFailure::RollbackRefused { offered: version, floor },
            ),
            _ => Err::<(), StoreFailure>(StoreFailure::Forked { version }),
        }
    })
    &&& r is Ok ==> after == m.accepted(
        WriteModel::Document { twinnet, doc_type, version, content_digest, payload },
    )
    &&& r is Err ==> after == m
}

/// The peers of a twinnet as the client sees them.
pub open spec fn lists_trusted(m: PlanesModel, twinnet: Seq<char>, peers: Seq<CachedPeer>) -> bool {
    exists|order: Seq<Seq<u8>>, records: Seq<PeerRecord>| #[trigger]
        lists_peers(m, twinnet, order, records) && peers.len() == records.len() && forall|i: int|
            0 <= i < peers.len() ==> (#[trigger] peers[i])@ == records[i]@
}

/// The store that the control-plane client is given: a port that writes, and nothing
/// else.
pub struct ControlPlaneBinding {
    /// The port.
    pub port: ControlPlanePort,
}

impl ControlPlaneBinding {
    /// What the port writes to is well formed.
    pub open spec fn wf(self) -> bool {
        self.port.wf()
    }

    /// The cache and the queue behind the port.
    pub open spec fn view(self) -> PlanesModel {
        self.port@
    }

    /// Binds the client to the store.
    #[must_use]
    pub fn new(port: ControlPlanePort) -> (b: Self)
        ensures
            b.port == port,
    {
        ControlPlaneBinding { port }
    }

    /// The cursor of a twinnet.
    #[must_use]
    pub fn cursor(&self, twinnet: &TwinnetId) -> (net_seq: u64)
        requires
            self.wf(),
        ensures
            net_seq == cursor_floor(self@, twinnet@),
    {
        self.port.cursor(twinnet)
    }

    /// Advances the cursor, or refuses and says what is held.
    pub fn advance_cursor(&mut self, twinnet: &TwinnetId, net_seq: u64) -> (r: Result<
        (),
        StoreFailure,
    >)
        requires
            old(self).wf(),
        ensures
            final(self).wf(),
            cursor_advanced(old(self)@, twinnet@, net_seq, final(self)@, r),
    {
        let floor: u64 = self.port.cursor(twinnet);
        if self.port.advance_cursor(twinnet, net_seq) {
            Ok(())
        } else {
            Err(StoreFailure::RollbackRefused { offered: net_seq, floor })
        }
    }

    /// The trust epoch of a twinnet.
    #[must_use]
    pub fn trust_epoch(&self, twinnet: &TwinnetId) -> (epoch: u64)
        requires
            self.wf(),
        ensures
            epoch == epoch_floor(self@, twinnet@),
    {
        self.port.trust_epoch(twinnet)
    }

    /// Advances the trust epoch, or refuses and says what is held.
    pub fn advance_trust_epoch(&mut self, twinnet: &TwinnetId, epoch: u64) -> (r: Result<
        (),
        StoreFailure,
    >)
        requires
            old(self).wf(),
        ensures
            final(self).wf(),
            epoch_advanced(old(self)@, twinnet@, epoch, final(self)@, r),
    {
        let floor: u64 = self.port.trust_epoch(twinnet);
        if self.port.advance_trust_epoch(twinnet, epoch) {
            Ok(())
        } else {
            Err(StoreFailure::RollbackRefused { offered: epoch, floor })
        }
    }

    /// When a held document is to be refreshed and when it ends. Both stand inside the
    /// signed octets, which are stored and not read here, so the answer is that no
    /// mark is held: an invented one would be worse.
    #[must_use]
    pub fn document_version(&self, _twinnet: &TwinnetId, _doc_type: &'static str) -> (mark: Option<
        StoredDocumentMark,
    >)
        ensures
            mark is None,
    {
        None
    }

    /// Stores a verified document. A lower version is a rollback; other content at
    /// the version that is held is a fork. The two are not the same refusal.
    pub fn put_document(
        &mut self,
        twinnet: &TwinnetId,
        doc_type: &'static str,
        version: u64,
        content_digest: [u8; 32],
        payload: &[u8],
    ) -> (r: Result<(), StoreFailure>)
        requires
            old(self).wf(),
        ensures
            final(self).wf(),
            document_put(
                old(self)@,
                twinnet@,
                doc_type@,
                version,
                content_digest,
                payload@,
                final(self)@,
                r,
            ),
    {
        let accepted = self.port.put_document(twinnet, doc_type, version, content_digest, payload);
        if accepted {
            return Ok(());
        }
        match self.port.document_version(twinnet, doc_type) {
            Some(floor) => {
                if version < floor {
                    Err(StoreFailure::RollbackRefused { offered: version, floor })
                } else {
                    Err(StoreFailure::Forked { version })
                }
            },
            None => Err(StoreFailure::Forked { version }),
        }
    }

    /// Every peer of a twinnet, read back through the store, in ascending order of
    /// the device identifiers.
    #[must_use]
    pub fn trusted_peers(&self, twinnet: &TwinnetId) -> (peers: Vec<CachedPeer>)
        requires
            self.wf(),
        ensures
            lists_trusted(self@, twinnet@, peers@),
    {
        let view = DataPlaneView::new(self.port.shared());
        let records = view.peers(twinnet);
        let mut peers: Vec<CachedPeer> = Vec::new();
        let mut i: usize = 0;
        while i < records.len()
            invariant
                i <= records@.len(),
                peers@.len() == i,
                forall|j: int| 0 <= j < i ==> (#[trigger] peers@[j])@ == records@[j]@,
            decreases records@.len() - i,
        {
            peers.push(to_cached(&records[i]));
            i += 1;
        }
        proof {
            let order = choose|order: Seq<Seq<u8>>| #[trigger]
                lists_peers(self@, twinnet@, order, records@);
            assert(lists_peers(self@, twinnet@, order, records@));
        }
        peers
    }

    /// Replaces one peer's record.
    pub fn put_trusted_peer(&mut self, twinnet: &TwinnetId, peer: &CachedPeer)
        requires
            old(self).wf(),
        ensures
            final(self).wf(),
            final(self)@ == old(self)@.accepted(
                WriteModel::Peer {
                    twinnet: twinnet@,
                    device_id: peer.device_id,
                    record: peer@,
                },
            ),
    {
        self.port.put_peer(twinnet, to_record(peer));
    }

    /// Removes a peer, recording the registered code that did it.
    pub fn remove_trusted_peer(&mut self, twinnet: &TwinnetId, peer: DeviceId, reason_code: &str)
        requires
            old(self).wf(),
        ensures
            final(self).wf(),
            final(self)@ == old(self)@.accepted(
                WriteModel::PeerRemoved {
                    twinnet: twinnet@,
                    device_id: peer,
                    reason_code: reason_code@,
                },
            ),
    {
        self.port.remove_peer(twinnet, peer, reason_code);
    }

    /// The causality token of a twinnet.
    #[must_use]
    pub fn causality_token(&self, twinnet: &TwinnetId) -> (token: Option<Vec<u8>>)
        requires
            self.wf(),
        ensures
            optional_octets(token) == (if self@.causality.contains_key(twinnet@) {
                Some(self@.causality[twinnet@])
            } else {
                None
            }),
    {
        self.port.causality_token(twinnet)
    }

    /// Replaces the causality token of a twinnet.
    pub fn put_causality_token(&mut self, twinnet: &TwinnetId, token: &[u8])
        requires
            old(self).wf(),
        ensures
            final(self).wf(),
            final(self)@ == old(self)@.accepted(
                WriteModel::CausalityToken { twinnet: twinnet@, token: token@ },
            ),
    {
        self.port.put_causality_token(twinnet, token);
    }
}

} // verus!
