//! What the control-plane client is bound to: its store, its pins and its transport.

use vstd::prelude::*;

use crate::cp_binding::store::{cursor_advanced, cursor_floor, document_put, epoch_advanced,
    epoch_floor, lists_trusted, CachedPeer, StoreFailure};
use crate::cp_binding::transport::{enrolled_at, ControlEndpoint, ControlPlaneEnrolment,
    ControlTransportBinding, TransportConfig};
use crate::instance::CoreModel;
use crate::planes::{lists_peers, PeerRecord, PlanesModel};
use crate::reason::{Component, Diagnostic, ReasonCode};
use crate::upkeep::attaches;

verus! {

/// A cursor that moves forward is stored and is then the one that is read; one that does not
/// is refused as a rollback that names both, and nothing is touched. Of a network that has
/// none 0 is read, and the first that comes is stored whatever it is.
pub proof fn a_cursor_is_stored_or_refused_as_a_rollback(
    m: PlanesModel,
    twinnet: Seq<char>,
    net_seq: u64,
    after: PlanesModel,
    r: Result<(), StoreFailure>,
)
    requires
        cursor_advanced(m, twinnet, net_seq, after, r),
    ensures
        r is Ok <==> !m.cursor.contains_key(twinnet) || m.cursor[twinnet] < net_seq,
        r is Ok ==> cursor_floor(after, twinnet) == net_seq && after.pending.len()
            == m.pending.len() + 1,
        r matches Err(e) ==> after == m && e == (StoreFailure::RollbackRefused {
            offered: net_seq,
            floor: m.cursor[twinnet],
        }),
        !m.cursor.contains_key(twinnet) ==> cursor_floor(m, twinnet) == 0,
        m.cursor.contains_key(twinnet) ==> cursor_floor(m, twinnet) == m.cursor[twinnet],
{
}

/// A trust epoch that is not lower is stored and is then the one that is read; a lower one is
/// refused as a rollback that names both, and nothing is touched.
pub proof fn an_epoch_is_stored_or_refused_as_a_rollback(
    m: PlanesModel,
    twinnet: Seq<char>,
    epoch: u64,
    after: PlanesModel,
    r: Result<(), StoreFailure>,
)
    requires
        epoch_advanced(m, twinnet, epoch, after, r),
    ensures
        r is Ok <==> !m.trust_epoch.contains_key(twinnet) || m.trust_epoch[twinnet] <= epoch,
        r is Ok ==> epoch_floor(after, twinnet) == epoch && after.pending.len() == m.pending.len()
            + 1,
        r matches Err(e) ==> after == m && e == (StoreFailure::RollbackRefused {
            offered: epoch,
            floor: m.trust_epoch[twinnet],
        }),
        !m.trust_epoch.contains_key(twinnet) ==> epoch_floor(m, twinnet) == 0,
{
}

/// A newer document, and the same one again, is stored; an older one is a rollback, and other
/// content at the version that is held is a fork. The two are not the same refusal, and
/// neither touches anything.
pub proof fn a_document_is_stored_or_refused_by_what_is_wrong(
    m: PlanesModel,
    twinnet: Seq<char>,
    doc_type: Seq<char>,
    version: u64,
    content_digest: [u8; 32],
    payload: Seq<u8>,
    after: PlanesModel,
    r: Result<(), StoreFailure>,
)
    requires
        document_put(m, twinnet, doc_type, version, content_digest, payload, after, r),
    ensures
        ({
            let key = (twinnet, doc_type);
            let known = m.documents.contains_key(key);
            let held = m.documents[key];
            &&& !known || version > held.version || (version == held.version && content_digest
                == held.content_digest) ==> r is Ok
            &&& known && version < held.version ==> (r matches Err(e) && e == (
            StoreFailure::RollbackRefused { offered: version, floor: held.version }))
            &&& known && version == held.version && content_digest != held.content_digest ==> (
            r matches Err(e) && e == (StoreFailure::Forked { version }))
            &&& r is Ok ==> after.documents.contains_key(key) && after.documents[key].payload
                == payload && after.documents[key].version == version
            &&& r is Err ==> after == m
        }),
{
}

/// The client sees every peer of the network that is known, and each as it was stored.
pub proof fn every_trusted_peer_is_seen(
    m: PlanesModel,
    twinnet: Seq<char>,
    peers: Seq<CachedPeer>,
    device: Seq<u8>,
)
    requires
        lists_trusted(m, twinnet, peers),
    ensures
        m.peers.contains_key((twinnet, device)) ==> exists|i: int|
            0 <= i < peers.len() && (#[trigger] peers[i])@ == m.peers[(twinnet, device)],
{
    let (order, records) = choose|order: Seq<Seq<u8>>, records: Seq<PeerRecord>| #[trigger]
        lists_peers(m, twinnet, order, records) && peers.len() == records.len() && forall|i: int|
            0 <= i < peers.len() ==> (#[trigger] peers[i])@ == records[i]@;
    if m.peers.contains_key((twinnet, device)) {
        assert(order.contains(device));
        let i = choose|i: int| 0 <= i < order.len() && order[i] == device;
        assert(records[i]@ == m.peers[(twinnet, order[i])]);
        assert(peers[i]@ == records[i]@);
    }
}

/// A device is enrolled at a control plane where some server key is pinned, none of them is
/// empty, and there is an endpoint; it holds just those. Pins that accept nobody are refused
/// as the handshake under them would be, whatever the endpoints are.
pub proof fn an_enrolment_needs_a_pin_and_an_endpoint(
    server_pins: Vec<Vec<u8>>,
    endpoints: Vec<ControlEndpoint>,
    r: Result<ControlPlaneEnrolment, Diagnostic>,
    i: int,
)
    requires
        enrolled_at(server_pins, endpoints, r),
    ensures
        r matches Ok(e) ==> e.pins == server_pins && e.endpoints == endpoints && endpoints@.len()
            > 0 && server_pins@.len() > 0 && (0 <= i < server_pins@.len() ==> server_pins@[i]@.len()
            > 0),
        server_pins@.len() == 0 ==> (r matches Err(d) && d.code
            == ReasonCode::ControlHandshakeRejected && d.component
            == Component::ControlPlaneClient),
        0 <= i < server_pins@.len() && server_pins@[i]@.len() == 0 ==> (r matches Err(d) && d.code
            == ReasonCode::ControlHandshakeRejected),
        server_pins@.len() > 0 && (forall|j: int|
            0 <= j < server_pins@.len() ==> (#[trigger] server_pins@[j])@.len() > 0) ==> (r is Ok
            <==> endpoints@.len() > 0) && (r matches Err(d) ==> d.code
            == ReasonCode::ControlUnreachable),
{
}

/// Once a transport is bound a channel is attached with its names and its families, in the
/// background as it is asked for; the one that was bound last counts. Before that the control
/// plane cannot be reached.
pub proof fn a_bound_transport_is_attached(
    m: CoreModel,
    binding: ControlTransportBinding,
    mobile_background: bool,
    r: Result<TransportConfig, Diagnostic>,
    unbound: CoreModel,
    no: Result<TransportConfig, Diagnostic>,
)
    requires
        attaches(m.control_bound(binding), mobile_background, r),
        unbound.control is None,
        attaches(unbound, mobile_background, no),
    ensures
        r matches Ok(config) && config.coordination_endpoints@ == binding.names@ && config.families
            == binding.families && config.mobile_background == mobile_background,
        no matches Err(d) && d.code == ReasonCode::ControlUnreachable && d.component
            == Component::ControlPlaneClient,
        m.control_bound(binding).sessions == m.sessions,
        m.control_bound(binding).planes == m.planes,
        m.control_bound(binding).enforcement == m.enforcement,
{
}

} // verus!
