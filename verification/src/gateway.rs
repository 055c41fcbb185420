//! The gateway role: who is admitted, what is granted, and how both are reported.
//!
//! Whether a peer fits, and which sources it may use, is decided by the capacity
//! reservation and the peer table below; what is remembered of their answers, and
//! when a reservation goes back, is decided here.

use vstd::prelude::*;

use crate::octets;
use crate::octets::be64;
use crate::reason::ReasonCode;
use crate::types::{AddressFamily, DeviceId};

verus! {

/// The number of peers that a conforming gateway supports at least.
pub const MIN_ADMITTED_PEERS: usize = 16;

/// Why a peer was not admitted.
#[derive(Debug, Clone, Copy, PartialEq, Eq)]
pub enum AdmitError {
    /// Its sources overlap those of an admitted peer, or it is admitted already.
    SourceSetOverlap,
    /// The capacity or the peer table refused it, under this code.
    Refused(ReasonCode),
}

/// What a peer was granted, one answer for each family.
#[derive(Debug, Clone, Copy, PartialEq, Eq)]
pub struct Grant {
    /// The peer.
    pub peer: DeviceId,
    /// Whether IPv4 is permitted.
    pub v4: bool,
    /// Whether IPv6 is permitted.
    pub v6: bool,
}

impl Grant {
    /// The peer.
    #[must_use]
    pub fn peer(&self) -> (d: DeviceId)
        ensures
            d == self.peer,
    {
        self.peer
    }

    /// Whether a family is permitted.
    #[must_use]
    pub fn permits(&self, family: AddressFamily) -> (b: bool)
        ensures
            b == (match family {
                AddressFamily::V4 => self.v4,
                AddressFamily::V6 => self.v6,
            }),
    {
        match family {
            AddressFamily::V4 => self.v4,
            AddressFamily::V6 => self.v6,
        }
    }
}

/// What follows the answer to a reservation.
#[derive(Debug, Clone, Copy, PartialEq, Eq)]
pub enum AfterReserve {
    /// Nothing was reserved: the peer is refused.
    Refuse(AdmitError),
    /// Give the reservation back, and refuse the peer.
    ReleaseAndRefuse(AdmitError),
    /// Ask the peer table.
    AskTable,
}

/// What follows the answer of the peer table.
#[derive(Debug, Clone, Copy, PartialEq, Eq)]
pub enum AfterTable {
    /// The peer is admitted.
    Admitted,
    /// Give the reservation back, and refuse the peer.
    ReleaseAndRefuse(AdmitError),
}

/// The gateway's live state.
#[derive(Debug)]
pub struct GatewayState {
    /// The admitted peers, in the order they were admitted.
    pub admitted: Vec<DeviceId>,
    /// The number of peers it was configured for.
    pub requested_max_peers: usize,
    /// What each admitted peer is guaranteed, in bits per second; 0 where no uplink
    /// is configured.
    pub floor_bits_per_sec: u64,
    /// The grants in force, oldest first.
    pub grants: Vec<Grant>,
}

/// No peer stands twice in the list.
pub open spec fn peers_distinct(peers: Seq<DeviceId>) -> bool {
    forall|i: int, j: int| 0 <= i < j < peers.len() ==> #[trigger] peers[i] != #[trigger] peers[j]
}

/// No peer holds two grants.
pub open spec fn one_grant_each(grants: Seq<Grant>) -> bool {
    forall|i: int, j: int|
        0 <= i < j < grants.len() ==> (#[trigger] grants[i]).peer != (#[trigger] grants[j]).peer
}

/// The list without one peer.
pub open spec fn peers_without(peers: Seq<DeviceId>, device: DeviceId) -> Seq<DeviceId>
    decreases peers.len(),
{
    if peers.len() == 0 {
        peers
    } else {
        let front = peers_without(peers.drop_last(), device);
        if peers.last() == device {
            front
        } else {
            front.push(peers.last())
        }
    }
}

/// The grants without those of one peer.
pub open spec fn grants_without(grants: Seq<Grant>, device: DeviceId) -> Seq<Grant>
    decreases grants.len(),
{
    if grants.len() == 0 {
        grants
    } else {
        let front = grants_without(grants.drop_last(), device);
        if grants.last().peer == device {
            front
        } else {
            front.push(grants.last())
        }
    }
}

proof fn peers_without_keeps(peers: Seq<DeviceId>, device: DeviceId)
    requires
        peers_distinct(peers),
    ensures
        peers_distinct(peers_without(peers, device)),
        !peers_without(peers, device).contains(device),
        forall|d: DeviceId|
            d != device ==> (#[trigger] peers_without(peers, device).contains(d) <==> peers.contains(
                d,
            )),
    decreases peers.len(),
{
    if peers.len() > 0 {
        let front = peers.drop_last();
        let last = peers.last();
        peers_without_keeps(front, device);
        let rest = peers_without(front, device);
        let all = peers_without(peers, device);
        assert(!front.contains(last)) by {
            if front.contains(last) {
                let i = choose|i: int| 0 <= i < front.len() && front[i] == last;
                assert(peers[i] == peers[peers.len() - 1]);
            }
        }
        assert(peers =~= front.push(last));
        assert forall|d: DeviceId| d != device implies (#[trigger] all.contains(d)
            <==> peers.contains(d)) by {
            if peers.contains(d) {
                let i = choose|i: int| 0 <= i < peers.len() && peers[i] == d;
                if i < front.len() {
                    assert(front[i] == d);
                    assert(rest.contains(d));
                    let j = choose|j: int| 0 <= j < rest.len() && rest[j] == d;
                    assert(all[j] == d);
                } else {
                    assert(all[rest.len() as int] == d);
                }
            }
            if all.contains(d) {
                let j = choose|j: int| 0 <= j < all.len() && all[j] == d;
                if j < rest.len() {
                    assert(rest[j] == d);
                    assert(rest.contains(d));
                    let i = choose|i: int| 0 <= i < front.len() && front[i] == d;
                    assert(peers[i] == d);
                } else {
                    assert(peers[peers.len() - 1] == d);
                }
            }
        }
        assert(!all.contains(device)) by {
            if all.contains(device) {
                let j = choose|j: int| 0 <= j < all.len() && all[j] == device;
                if j < rest.len() {
                    assert(rest[j] == device);
                    assert(rest.contains(device));
                }
            }
        }
        if last != device {
            assert(!rest.contains(last));
            assert forall|i: int, j: int| 0 <= i < j < all.len() implies #[trigger] all[i]
                != #[trigger] all[j] by {
                if j == rest.len() {
                    assert(rest[i] == all[i]);
                    assert(rest.contains(rest[i]));
                } else {
                    assert(rest[i] != rest[j]);
                }
            }
        }
    }
}

proof fn grants_without_keeps(grants: Seq<Grant>, device: DeviceId)
    requires
        one_grant_each(grants),
    ensures
        one_grant_each(grants_without(grants, device)),
        forall|i: int|
            0 <= i < grants_without(grants, device).len() ==> (#[trigger] grants_without(
                grants,
                device,
            )[i]).peer != device && grants.contains(grants_without(grants, device)[i]),
        grants_without(grants, device).len() <= grants.len(),
    decreases grants.len(),
{
    if grants.len() > 0 {
        let front = grants.drop_last();
        let last = grants.last();
        grants_without_keeps(front, device);
        let rest = grants_without(front, device);
        let all = grants_without(grants, device);
        assert forall|i: int| 0 <= i < all.len() implies (#[trigger] all[i]).peer != device
            && grants.contains(all[i]) by {
            if i < rest.len() {
                assert(rest[i] == all[i]);
                let j = choose|j: int| 0 <= j < front.len() && front[j] == rest[i];
                assert(grants[j] == all[i]);
            } else {
                assert(grants[grants.len() - 1] == all[i]);
            }
        }
        assert forall|i: int, j: int| 0 <= i < j < all.len() implies (#[trigger] all[i]).peer
            != (#[trigger] all[j]).peer by {
            if j == rest.len() {
                assert(rest[i] == all[i]);
                let k = choose|k: int| 0 <= k < front.len() && front[k] == rest[i];
                assert(grants[k].peer != grants[grants.len() - 1].peer);
            } else {
                assert(rest[i].peer != rest[j].peer);
            }
        }
    }
}

/// What follows the answer to a reservation, of a gateway with these peers.
pub open spec fn reserved_next(
    admitted: Seq<DeviceId>,
    device: DeviceId,
    reserved: Result<(), AdmitError>,
) -> AfterReserve {
    match reserved {
        Err(e) => AfterReserve::Refuse(e),
        Ok(()) => if admitted.contains(device) {
            AfterReserve::ReleaseAndRefuse(AdmitError::SourceSetOverlap)
        } else {
            AfterReserve::AskTable
        },
    }
}

/// What the answer of the peer table leaves, and what follows it.
pub open spec fn table_answered(
    g: GatewayState,
    device: DeviceId,
    answer: Result<(), AdmitError>,
    after: GatewayState,
    end: AfterTable,
) -> bool {
    match answer {
        Ok(()) => {
            &&& end == AfterTable::Admitted
            &&& after.admitted@ == g.admitted@.push(device)
            &&& after.grants == g.grants
            &&& after.requested_max_peers == g.requested_max_peers
            &&& after.floor_bits_per_sec == g.floor_bits_per_sec
        },
        Err(e) => end == AfterTable::ReleaseAndRefuse(e) && after == g,
    }
}

/// What removing a peer leaves.
pub open spec fn peer_removed(g: GatewayState, device: DeviceId, after: GatewayState) -> bool {
    &&& after.admitted@ == peers_without(g.admitted@, device)
    &&& after.grants@ == grants_without(g.grants@, device)
    &&& after.requested_max_peers == g.requested_max_peers
    &&& after.floor_bits_per_sec == g.floor_bits_per_sec
}

/// What remembering a grant leaves.
pub open spec fn grant_recorded(g: GatewayState, grant: Grant, after: GatewayState) -> bool {
    &&& after.grants@ == grants_without(g.grants@, grant.peer).push(grant)
    &&& after.admitted == g.admitted
    &&& after.requested_max_peers == g.requested_max_peers
    &&& after.floor_bits_per_sec == g.floor_bits_per_sec
}

impl GatewayState {
    /// No peer is admitted twice, and none holds two grants.
    pub open spec fn wf(self) -> bool {
        &&& peers_distinct(self.admitted@)
        &&& one_grant_each(self.grants@)
    }

    /// A gateway with no admitted peers, configured for `max_peers`, each of which
    /// is guaranteed `floor_bits_per_sec`.
    #[must_use]
    pub fn new(max_peers: usize, floor_bits_per_sec: u64) -> (g: Self)
        ensures
            g.wf(),
            g.admitted@ == Seq::<DeviceId>::empty(),
            g.grants@ == Seq::<Grant>::empty(),
            g.requested_max_peers == max_peers,
            g.floor_bits_per_sec == floor_bits_per_sec,
    {
        GatewayState {
            admitted: Vec::new(),
            requested_max_peers: max_peers,
            floor_bits_per_sec,
            grants: Vec::new(),
        }
    }

    /// A host that is not set up as a gateway: not the same as one with no peers.
    #[must_use]
    pub fn unconfigured() -> (g: Self)
        ensures
            g.wf(),
            g.admitted@ == Seq::<DeviceId>::empty(),
            g.grants@ == Seq::<Grant>::empty(),
            g.requested_max_peers == 0,
            g.floor_bits_per_sec == 0,
    {
        GatewayState::new(0, 0)
    }

    /// How many peers are admitted.
    #[must_use]
    pub fn admitted(&self) -> (n: usize)
        ensures
            n == self.admitted@.len(),
    {
        self.admitted.len()
    }

    /// The ceiling that is in force: never below what a conforming gateway supports.
    pub open spec fn ceiling(self) -> usize {
        if self.requested_max_peers < MIN_ADMITTED_PEERS {
            MIN_ADMITTED_PEERS
        } else {
            self.requested_max_peers
        }
    }

    /// The ceiling that is in force.
    #[must_use]
    pub fn max_admitted_peers(&self) -> (n: usize)
        ensures
            n == self.ceiling(),
    {
        if self.requested_max_peers < MIN_ADMITTED_PEERS {
            MIN_ADMITTED_PEERS
        } else {
            self.requested_max_peers
        }
    }

    /// Whether the host was configured to support as many peers as a conforming
    /// gateway must. This reads what was asked for, not the ceiling in force.
    #[must_use]
    pub fn conforms_to_mg14(&self) -> (b: bool)
        ensures
            b == (self.requested_max_peers >= MIN_ADMITTED_PEERS),
    {
        self.requested_max_peers >= MIN_ADMITTED_PEERS
    }

    /// What each admitted peer is guaranteed, in bits per second.
    #[must_use]
    pub fn floor_bits_per_sec(&self) -> (n: u64)
        ensures
            n == self.floor_bits_per_sec,
    {
        self.floor_bits_per_sec
    }

    /// The admitted peers, in the order they were admitted.
    #[must_use]
    pub fn peers(&self) -> (p: &Vec<DeviceId>)
        ensures
            *p == self.admitted,
    {
        &self.admitted
    }

    /// The grants in force.
    #[must_use]
    pub fn grants(&self) -> (g: &Vec<Grant>)
        ensures
            *g == self.grants,
    {
        &self.grants
    }

    /// Whether a peer is admitted.
    #[must_use]
    pub fn is_admitted(&self, device: &DeviceId) -> (b: bool)
        ensures
            b == self.admitted@.contains(*device),
    {
        let mut i: usize = 0;
        while i < self.admitted.len()
            invariant
                i <= self.admitted@.len(),
                forall|j: int| 0 <= j < i ==> self.admitted@[j] != *device,
            decreases self.admitted@.len() - i,
        {
            if self.admitted[i].same(device) {
                return true;
            }
            i += 1;
        }
        false
    }

    /// What follows the answer to a peer's reservation. A peer that is admitted
    /// already is refused, and its second reservation goes back.
    #[must_use]
    pub fn admit_reserved(
        &self,
        device: &DeviceId,
        reserved: Result<(), AdmitError>,
    ) -> (next: AfterReserve)
        ensures
            next == reserved_next(self.admitted@, *device, reserved),
    {
        match reserved {
            Err(e) => AfterReserve::Refuse(e),
            Ok(()) => if self.is_admitted(device) {
                AfterReserve::ReleaseAndRefuse(AdmitError::SourceSetOverlap)
            } else {
                AfterReserve::AskTable
            },
        }
    }

    /// Takes the answer of the peer table. Admitting appends the peer and displaces
    /// nobody; a refusal leaves everything as it was and gives the reservation back.
    pub fn admit_answered(&mut self, device: DeviceId, answer: Result<(), AdmitError>) -> (end:
        AfterTable)
        requires
            old(self).wf(),
            !old(self).admitted@.contains(device),
        ensures
            final(self).wf(),
            table_answered(*old(self), device, answer, *final(self), end),
    {
        match answer {
            Ok(()) => {
                let ghost peers = self.admitted@;
                self.admitted.push(device);
                proof {
                    assert forall|i: int, j: int| 0 <= i < j < self.admitted@.len() implies
                        #[trigger] self.admitted@[i] != #[trigger] self.admitted@[j] by {
                        assert(self.admitted@[i] == peers[i]);
                        if j == peers.len() {
                            assert(peers.contains(peers[i]));
                        } else {
                            assert(peers[i] != peers[j]);
                        }
                    }
                }
                AfterTable::Admitted
            },
            Err(e) => AfterTable::ReleaseAndRefuse(e),
        }
    }

    /// Removes a peer and its grant. The caller gives its reservation back.
    pub fn remove(&mut self, device: DeviceId)
        requires
            old(self).wf(),
        ensures
            final(self).wf(),
            peer_removed(*old(self), device, *final(self)),
    {
        let mut rest: Vec<DeviceId> = Vec::new();
        let ghost peers = self.admitted@;
        let mut i: usize = 0;
        assert(peers.take(0) =~= Seq::<DeviceId>::empty());
        assert(rest@ =~= peers_without(peers.take(0), device));
        while i < self.admitted.len()
            invariant
                i <= peers.len(),
                peers == self.admitted@,
                rest@ == peers_without(peers.take(i as int), device),
                *self == *old(self),
            decreases peers.len() - i,
        {
            if !self.admitted[i].same(&device) {
                rest.push(self.admitted[i]);
            }
            assert(peers.take(i + 1).drop_last() =~= peers.take(i as int));
            i += 1;
        }
        proof {
            assert(peers.take(peers.len() as int) =~= peers);
            peers_without_keeps(peers, device);
        }
        self.admitted = rest;
        self.drop_grants(device);
    }

    fn drop_grants(&mut self, device: DeviceId)
        requires
            old(self).wf(),
        ensures
            final(self).wf(),
            final(self).grants@ == grants_without(old(self).grants@, device),
            final(self).admitted == old(self).admitted,
            final(self).requested_max_peers == old(self).requested_max_peers,
            final(self).floor_bits_per_sec == old(self).floor_bits_per_sec,
    {
        let mut rest: Vec<Grant> = Vec::new();
        let ghost grants = self.grants@;
        let mut i: usize = 0;
        assert(grants.take(0) =~= Seq::<Grant>::empty());
        assert(rest@ =~= grants_without(grants.take(0), device));
        while i < self.grants.len()
            invariant
                i <= grants.len(),
                grants == self.grants@,
                rest@ == grants_without(grants.take(i as int), device),
                *self == *old(self),
            decreases grants.len() - i,
        {
            if !self.grants[i].peer.same(&device) {
                rest.push(self.grants[i]);
            }
            assert(grants.take(i + 1).drop_last() =~= grants.take(i as int));
            i += 1;
        }
        proof {
            assert(grants.take(grants.len() as int) =~= grants);
            grants_without_keeps(grants, device);
        }
        self.grants = rest;
    }

    /// Remembers a grant in place of the one the peer held.
    pub fn record_grant(&mut self, grant: Grant)
        requires
            old(self).wf(),
        ensures
            final(self).wf(),
            grant_recorded(*old(self), grant, *final(self)),
    {
        self.drop_grants(grant.peer);
        proof {
            grants_without_keeps(old(self).grants@, grant.peer);
        }
        self.grants.push(grant);
    }
}

/// The body of `gateway.get`.
pub open spec fn status_octets(g: GatewayState) -> Seq<u8> {
    be64(g.admitted@.len() as u64) + be64(g.ceiling() as u64) + be64(g.floor_bits_per_sec) + seq![
        if g.requested_max_peers >= MIN_ADMITTED_PEERS {
            1u8
        } else {
            0u8
        },
    ]
}

/// The body of `gateway.get`: three eight-octet numbers and a flag.
#[must_use]
pub fn encode_status(state: &GatewayState) -> (out: Vec<u8>)
    ensures
        out@ == status_octets(*state),
        out@.len() == 25,
{
    let mut out: Vec<u8> = Vec::new();
    octets::put_be64(&mut out, state.admitted() as u64);
    octets::put_be64(&mut out, state.max_admitted_peers() as u64);
    octets::put_be64(&mut out, state.floor_bits_per_sec());
    out.push(if state.conforms_to_mg14() { 1 } else { 0 });
    assert(out@ =~= status_octets(*state));
    out
}

/// The body of `gateway.peer.list`: the identifiers, one after the other.
pub open spec fn peers_octets(peers: Seq<DeviceId>) -> Seq<u8>
    decreases peers.len(),
{
    if peers.len() == 0 {
        Seq::empty()
    } else {
        peers_octets(peers.drop_last()) + peers.last().bytes@
    }
}

/// The body of `gateway.peer.list`: a whole number of identifiers, 32 octets each.
#[must_use]
pub fn encode_peers(state: &GatewayState) -> (out: Vec<u8>)
    ensures
        out@ == peers_octets(state.admitted@),
        out@.len() == 32 * state.admitted@.len(),
{
    let mut out: Vec<u8> = Vec::new();
    let ghost peers = state.admitted@;
    let mut i: usize = 0;
    assert(peers.take(0) =~= Seq::<DeviceId>::empty());
    while i < state.admitted.len()
        invariant
            i <= peers.len(),
            peers == state.admitted@,
            out@ == peers_octets(peers.take(i as int)),
            out@.len() == 32 * i,
        decreases peers.len() - i,
    {
        octets::put_slice(&mut out, state.admitted[i].bytes.as_slice());
        assert(peers.take(i + 1).drop_last() =~= peers.take(i as int));
        i += 1;
    }
    assert(peers.take(peers.len() as int) =~= peers);
    out
}

/// One grant: the identifier, and one octet for each family.
pub open spec fn grant_octets(g: Grant) -> Seq<u8> {
    g.peer.bytes@ + seq![
        if g.v4 {
            1u8
        } else {
            0u8
        },
        if g.v6 {
            1u8
        } else {
            0u8
        },
    ]
}

/// The body of `gateway.grant.list`: the grants, one after the other.
pub open spec fn grants_octets(grants: Seq<Grant>) -> Seq<u8>
    decreases grants.len(),
{
    if grants.len() == 0 {
        Seq::empty()
    } else {
        grants_octets(grants.drop_last()) + grant_octets(grants.last())
    }
}

/// The body of `gateway.grant.list`: both families of every grant, never one flag
/// for the two.
#[must_use]
pub fn encode_grants(state: &GatewayState) -> (out: Vec<u8>)
    ensures
        out@ == grants_octets(state.grants@),
        out@.len() == 34 * state.grants@.len(),
{
    let mut out: Vec<u8> = Vec::new();
    let ghost grants = state.grants@;
    let mut i: usize = 0;
    assert(grants.take(0) =~= Seq::<Grant>::empty());
    while i < state.grants.len()
        invariant
            i <= grants.len(),
            grants == state.grants@,
            out@ == grants_octets(grants.take(i as int)),
            out@.len() == 34 * i,
        decreases grants.len() - i,
    {
        let grant = state.grants[i];
        let ghost before = out@;
        octets::put_slice(&mut out, grant.peer.bytes.as_slice());
        out.push(if grant.permits(AddressFamily::V4) { 1 } else { 0 });
        out.push(if grant.permits(AddressFamily::V6) { 1 } else { 0 });
        assert(out@ =~= before + grant_octets(grant));
        assert(grants.take(i + 1).drop_last() =~= grants.take(i as int));
        i += 1;
    }
    assert(grants.take(grants.len() as int) =~= grants);
    out
}

/// A removed peer is gone and holds no grant, and no other peer is displaced.
pub proof fn removing_displaces_nobody_else(peers: Seq<DeviceId>, grants: Seq<Grant>, device: DeviceId)
    requires
        peers_distinct(peers),
        one_grant_each(grants),
    ensures
        !peers_without(peers, device).contains(device),
        forall|d: DeviceId|
            d != device ==> (#[trigger] peers_without(peers, device).contains(d) <==> peers.contains(
                d,
            )),
        forall|i: int|
            0 <= i < grants_without(grants, device).len() ==> (#[trigger] grants_without(
                grants,
                device,
            )[i]).peer != device,
{
    peers_without_keeps(peers, device);
    grants_without_keeps(grants, device);
}

} // verus!
