//! Every session that this device knows about, and what each one holds.

use vstd::prelude::*;

use crate::datapath::frame::ReceiverIndex;
use crate::establish::{Row, SocketFamily};
use crate::events::TransitionRecord;
use crate::octets;
use crate::reason::ReasonCode;
use crate::session::{resumes_in, DurableSession, PathClass, SessionState};
use crate::table::{ascending, OctetMap};
use crate::types::{DeviceId, Endpoint, SessionId, TwinnetId};

verus! {

/// What a session's machine reports of itself.
#[derive(Debug, Clone, Copy, PartialEq, Eq)]
pub struct MachineReport {
    /// Where the session stands.
    pub state: SessionState,
    /// Why.
    pub reason: Option<ReasonCode>,
    /// What carries its traffic, if anything does.
    pub carrier: Option<PathClass>,
    /// Whether it has a path.
    pub has_path: bool,
}

/// What a machine answers to an event.
#[derive(Debug, Clone, Copy, PartialEq, Eq)]
pub struct Applied {
    /// The machine, afterwards.
    pub report: MachineReport,
    /// The transition it took, or `None` where it did not move.
    pub record: Option<TransitionRecord>,
}

/// The key material of one peer, as far as it is not secret. What it stands for is
/// installed: a session without it cannot complete a handshake.
#[derive(Debug)]
pub struct Keying {
    /// The network the material belongs to.
    pub twinnet: TwinnetId,
    /// This device.
    pub local_device: DeviceId,
}

/// A tunnel that a completed handshake produced, and what carries it.
#[derive(Debug, Clone, Copy, PartialEq, Eq)]
pub struct Established {
    /// Whether its pump is built.
    pub pump: bool,
    /// Whether both directions run by themselves.
    pub spawned: bool,
    /// Whether it was told to stop.
    pub cancelled: bool,
    /// The class of the path it was established on.
    pub class: PathClass,
    /// The index a peer stamps on frames addressed to us.
    pub local_receiver: ReceiverIndex,
    /// The index we stamp on frames addressed to the peer.
    pub peer_receiver: ReceiverIndex,
}

/// One session.
#[derive(Debug)]
pub struct SessionEntry {
    /// Its name.
    pub session_id: SessionId,
    /// Its peer.
    pub peer: DeviceId,
    /// What its machine last reported.
    pub machine: MachineReport,
    /// Whether its candidates are raced.
    pub raced: bool,
    /// Its candidates, and how each stands.
    pub rows: Vec<Row>,
    /// The sockets it gathered on.
    pub sockets: Vec<SocketFamily>,
    /// Where its peer is, once that is known.
    pub peer_endpoint: Option<Endpoint>,
    /// Its peer's key material, once that is installed.
    pub keying: Option<Keying>,
    /// Its tunnel, once a handshake completed.
    pub established: Option<Established>,
    /// Whether credentials for a relay are installed.
    pub relay_access: bool,
    /// Whether it holds a relay leg that is bound.
    pub relay: bool,
}

/// What a session holds.
#[verifier::ext_equal]
pub struct SessionModel {
    /// Its name.
    pub session_id: SessionId,
    /// Its peer.
    pub peer: DeviceId,
    /// What its machine last reported.
    pub machine: MachineReport,
    /// Whether its candidates are raced.
    pub raced: bool,
    /// Its candidates, and how each stands.
    pub rows: Seq<Row>,
    /// The sockets it gathered on.
    pub sockets: Seq<SocketFamily>,
    /// Where its peer is.
    pub peer_endpoint: Option<Endpoint>,
    /// Its peer's key material.
    pub keying: Option<Keying>,
    /// Its tunnel.
    pub established: Option<Established>,
    /// Whether credentials for a relay are installed.
    pub relay_access: bool,
    /// Whether it holds a relay leg that is bound.
    pub relay: bool,
}

/// A machine that was never told anything.
pub open spec fn idle() -> MachineReport {
    MachineReport {
        state: SessionState::Disconnected,
        reason: None,
        carrier: None,
        has_path: false,
    }
}

/// What the machine of a session that an earlier process left reports: it stands where
/// the record resumes.
pub open spec fn resumed_report(record: DurableSession, machine: MachineReport) -> MachineReport {
    MachineReport { state: resumes_in(record.last_state), ..machine }
}

impl SessionModel {
    /// A session that just came to be known.
    pub open spec fn fresh(session_id: SessionId, peer: DeviceId, machine: MachineReport) -> Self {
        SessionModel {
            session_id,
            peer,
            machine,
            raced: false,
            rows: Seq::empty(),
            sockets: Seq::empty(),
            peer_endpoint: None,
            keying: None,
            established: None,
            relay_access: false,
            relay: false,
        }
    }

    /// The session is carrying a tunnel.
    pub open spec fn is_carrying(self) -> bool {
        self.established is Some
    }

    /// The session after it was torn down: nothing carries it.
    pub open spec fn torn_down(self) -> Self {
        SessionModel { established: None, ..self }
    }
}

impl SessionEntry {
    /// What the session holds.
    pub open spec fn view(self) -> SessionModel {
        SessionModel {
            session_id: self.session_id,
            peer: self.peer,
            machine: self.machine,
            raced: self.raced,
            rows: self.rows@,
            sockets: self.sockets@,
            peer_endpoint: self.peer_endpoint,
            keying: self.keying,
            established: self.established,
            relay_access: self.relay_access,
            relay: self.relay,
        }
    }

    fn with_machine(session_id: SessionId, peer: DeviceId, machine: MachineReport) -> (e: Self)
        ensures
            e@ == SessionModel::fresh(session_id, peer, machine),
    {
        SessionEntry {
            session_id,
            peer,
            machine,
            raced: false,
            rows: Vec::new(),
            sockets: Vec::new(),
            peer_endpoint: None,
            keying: None,
            established: None,
            relay_access: false,
            relay: false,
        }
    }

    /// A session with a peer, at rest.
    #[must_use]
    pub fn new(session_id: SessionId, peer: DeviceId) -> (e: Self)
        ensures
            e@ == SessionModel::fresh(session_id, peer, idle()),
    {
        let machine = MachineReport {
            state: SessionState::Disconnected,
            reason: None,
            carrier: None,
            has_path: false,
        };
        SessionEntry::with_machine(session_id, peer, machine)
    }

    /// A session that an earlier process left. It stands where its record resumes; the
    /// rest is as its machine reports.
    #[must_use]
    pub fn resumed(record: &DurableSession, machine: MachineReport) -> (e: Self)
        ensures
            e@ == SessionModel::fresh(
                record.session_id,
                record.peer,
                resumed_report(*record, machine),
            ),
    {
        let machine = MachineReport { state: record.resume_state(), ..machine };
        SessionEntry::with_machine(record.session_id, record.peer, machine)
    }

    /// Whether the session is carrying a tunnel.
    #[must_use]
    pub fn is_carrying(&self) -> (b: bool)
        ensures
            b == self@.is_carrying(),
    {
        self.established.is_some()
    }

    /// Stops what carries the session, and hands back what is to be stopped: its
    /// directions first, and its keys after them.
    pub fn tear_down(&mut self) -> (stopped: Option<Established>)
        ensures
            final(self)@ == old(self)@.torn_down(),
            stopped == old(self).established,
    {
        let stopped = self.established;
        self.established = None;
        stopped
    }
}

/// What the sessions of a table hold.
pub open spec fn models(table: Map<Seq<u8>, SessionEntry>) -> Map<Seq<u8>, SessionModel> {
    Map::new(|k: Seq<u8>| table.contains_key(k), |k: Seq<u8>| table[k]@)
}

/// The sessions, by their names, walked in ascending order.
pub struct SessionTable {
    entries: OctetMap<SessionEntry>,
}

impl SessionTable {
    /// Every session stands under its own name.
    pub closed spec fn wf(self) -> bool {
        &&& self.entries.wf()
        &&& forall|k: Seq<u8>| #[trigger]
            self.entries@.contains_key(k) ==> self.entries@[k].session_id.bytes@ == k
    }

    /// What each session holds, by its name.
    pub closed spec fn view(self) -> Map<Seq<u8>, SessionModel> {
        models(self.entries@)
    }

    /// The names, in the order they are walked.
    pub closed spec fn order(self) -> Seq<Seq<u8>> {
        self.entries.order()
    }

    /// No sessions.
    #[must_use]
    pub fn new() -> (t: Self)
        ensures
            t.wf(),
            t@ == Map::<Seq<u8>, SessionModel>::empty(),
            t.order() == Seq::<Seq<u8>>::empty(),
    {
        let t = SessionTable { entries: OctetMap::new() };
        assert(t@ =~= Map::<Seq<u8>, SessionModel>::empty());
        t
    }

    /// The session of a name.
    #[must_use]
    pub fn get(&self, session_id: SessionId) -> (e: Option<&SessionEntry>)
        requires
            self.wf(),
        ensures
            match e {
                Some(e) => {
                    &&& self@.contains_key(session_id.bytes@)
                    &&& e@ == self@[session_id.bytes@]
                    &&& e.session_id == session_id
                },
                None => !self@.contains_key(session_id.bytes@),
            },
    {
        let e = self.entries.get(session_id.bytes.as_slice());
        proof {
            if let Some(entry) = e {
                assert(self.entries@.contains_key(session_id.bytes@));
                assert(entry.session_id.bytes =~= session_id.bytes);
            }
        }
        e
    }

    /// Whether a session is known.
    #[must_use]
    pub fn contains(&self, session_id: SessionId) -> (b: bool)
        requires
            self.wf(),
        ensures
            b == self@.contains_key(session_id.bytes@),
    {
        self.entries.contains(session_id.bytes.as_slice())
    }

    /// Takes a session out.
    pub fn take(&mut self, session_id: SessionId) -> (e: Option<SessionEntry>)
        requires
            old(self).wf(),
        ensures
            final(self).wf(),
            final(self)@ == old(self)@.remove(session_id.bytes@),
            match e {
                Some(e) => {
                    &&& old(self)@.contains_key(session_id.bytes@)
                    &&& e@ == old(self)@[session_id.bytes@]
                    &&& e.session_id == session_id
                },
                None => !old(self)@.contains_key(session_id.bytes@),
            },
    {
        let e = self.entries.remove(session_id.bytes.as_slice());
        proof {
            assert(self@ =~= old(self)@.remove(session_id.bytes@));
            if e is Some {
                assert(old(self).entries@.contains_key(session_id.bytes@));
                assert(e->0.session_id.bytes =~= session_id.bytes);
            }
        }
        e
    }

    /// Puts a session under its name, in place of the one that was there.
    pub fn put(&mut self, entry: SessionEntry)
        requires
            old(self).wf(),
        ensures
            final(self).wf(),
            final(self)@ == old(self)@.insert(entry.session_id.bytes@, entry@),
    {
        let ghost name = entry.session_id.bytes@;
        let ghost model = entry@;
        self.entries.insert(octets::to_vec(entry.session_id.bytes.as_slice()), entry);
        assert(self@ =~= old(self)@.insert(name, model));
    }

    /// The names, ascending.
    #[must_use]
    pub fn ids(&self) -> (ids: Vec<SessionId>)
        requires
            self.wf(),
        ensures
            lists_names(self@, ids@),
            names_of(ids@) == self.order(),
    {
        let n: usize = self.entries.len();
        let ghost order = self.entries.order();
        let mut ids: Vec<SessionId> = Vec::new();
        let mut i: usize = 0;
        while i < n
            invariant
                i <= n == order.len(),
                self.wf(),
                order == self.entries.order(),
                ids@.len() == i,
                forall|k: Seq<u8>| self.entries@.contains_key(k) <==> order.contains(k),
                forall|j: int| 0 <= j < i ==> (#[trigger] ids@[j]).bytes@ == order[j],
            decreases n - i,
        {
            let entry = self.entries.value_at(i);
            proof {
                assert(order.contains(order[i as int]));
                assert(self.entries@.contains_key(order[i as int]));
            }
            ids.push(entry.session_id);
            i += 1;
        }
        proof {
            assert(names_of(ids@) =~= order);
            assert forall|j: int| 0 <= j < ids@.len() implies self@.contains_key(
                (#[trigger] ids@[j]).bytes@,
            ) by {
                assert(order.contains(order[j]));
            }
            assert forall|k: Seq<u8>| #[trigger] self@.contains_key(k) implies exists|j: int|
                0 <= j < ids@.len() && (#[trigger] ids@[j]).bytes@ == k by {
                assert(self.entries@.contains_key(k));
                assert(order.contains(k));
                let j = choose|j: int| 0 <= j < order.len() && order[j] == k;
                assert(ids@[j].bytes@ == k);
            }
        }
        ids
    }

    /// The sessions that a tunnel carries, ascending.
    #[must_use]
    pub fn carrying(&self) -> (ids: Vec<SessionId>)
        requires
            self.wf(),
        ensures
            names_of(ids@) == carried(self@, self.order()),
            lists_carrying(self@, ids@),
    {
        let all = self.ids();
        let ghost names = names_of(all@);
        let mut ids: Vec<SessionId> = Vec::new();
        let mut i: usize = 0;
        assert(names.take(0) =~= Seq::<Seq<u8>>::empty());
        assert(names_of(ids@) =~= Seq::<Seq<u8>>::empty());
        while i < all.len()
            invariant
                i <= all@.len(),
                self.wf(),
                names == names_of(all@),
                lists_names(self@, all@),
                names_of(ids@) == carried(self@, names.take(i as int)),
            decreases all@.len() - i,
        {
            let id = all[i];
            assert(names[i as int] == id.bytes@);
            assert(self@.contains_key(id.bytes@));
            let here = match self.get(id) {
                Some(entry) => entry.is_carrying(),
                None => false,
            };
            let ghost before = ids@;
            if here {
                ids.push(id);
                assert(names_of(ids@) =~= names_of(before).push(id.bytes@));
            }
            assert(names.take(i + 1).drop_last() =~= names.take(i as int));
            i += 1;
        }
        assert(names.take(names.len() as int) =~= names);
        proof {
            let found = names_of(ids@);
            carried_is_a_selection(self@, names);
            assert forall|j: int| 0 <= j < ids@.len() implies carries(
                self@,
                (#[trigger] ids@[j]).bytes@,
            ) by {
                assert(found[j] == ids@[j].bytes@);
            }
            assert forall|k: Seq<u8>| #[trigger] carries(self@, k) implies exists|j: int|
                0 <= j < ids@.len() && (#[trigger] ids@[j]).bytes@ == k by {
                let j = choose|j: int| 0 <= j < all@.len() && (#[trigger] all@[j]).bytes@ == k;
                assert(names[j] == k);
                assert(names.contains(k));
                let n = choose|n: int| 0 <= n < found.len() && found[n] == k;
                assert(ids@[n].bytes@ == k);
            }
        }
        ids
    }

    /// Whether some session carries traffic on a path that was validated. A session
    /// that carries badly does; one that is between two paths does not.
    #[must_use]
    pub fn any_connected(&self) -> (b: bool)
        requires
            self.wf(),
        ensures
            b == some_connected(self@),
    {
        let all = self.ids();
        let mut i: usize = 0;
        while i < all.len()
            invariant
                i <= all@.len(),
                self.wf(),
                lists_names(self@, all@),
                forall|j: int| 0 <= j < i ==> !connected((#[trigger] self@[all@[j].bytes@]).machine.state),
            decreases all@.len() - i,
        {
            let id = all[i];
            assert(self@.contains_key(id.bytes@));
            if let Some(entry) = self.get(id) {
                if is_connected(entry.machine.state) {
                    assert(self@.contains_key(id.bytes@) && connected(self@[id.bytes@].machine.state));
                    return true;
                }
            }
            i += 1;
        }
        proof {
            assert forall|k: Seq<u8>| #[trigger] self@.contains_key(k) implies !connected(
                self@[k].machine.state,
            ) by {
                let j = choose|j: int| 0 <= j < all@.len() && (#[trigger] all@[j]).bytes@ == k;
                assert(!connected(self@[all@[j].bytes@].machine.state));
            }
        }
        false
    }
}

/// Every session stands under its own name.
pub open spec fn named(sessions: Map<Seq<u8>, SessionModel>) -> bool {
    forall|k: Seq<u8>| #[trigger]
        sessions.contains_key(k) ==> sessions[k].session_id.bytes@ == k
}

/// In a table every session stands under its own name.
pub proof fn every_session_is_named(table: SessionTable)
    requires
        table.wf(),
    ensures
        named(table@),
{
    assert forall|k: Seq<u8>| #[trigger] table@.contains_key(k) implies table@[k].session_id.bytes@
        == k by {
        assert(table.entries@.contains_key(k));
    }
}

/// A session in this state carries traffic on a path that was validated.
pub open spec fn connected(state: SessionState) -> bool {
    state is Steady || state is Degraded
}

fn is_connected(state: SessionState) -> (b: bool)
    ensures
        b == connected(state),
{
    match state {
        SessionState::Steady(_) => true,
        SessionState::Degraded { .. } => true,
        _ => false,
    }
}

/// Some session carries traffic on a path that was validated.
pub open spec fn some_connected(sessions: Map<Seq<u8>, SessionModel>) -> bool {
    exists|k: Seq<u8>| #[trigger] sessions.contains_key(k) && connected(sessions[k].machine.state)
}

/// The octets of each name.
pub open spec fn names_of(ids: Seq<SessionId>) -> Seq<Seq<u8>> {
    ids.map_values(|id: SessionId| id.bytes@)
}

/// The list holds the name of each session, once.
pub open spec fn lists_names(sessions: Map<Seq<u8>, SessionModel>, ids: Seq<SessionId>) -> bool {
    &&& ascending(names_of(ids))
    &&& forall|i: int| 0 <= i < ids.len() ==> sessions.contains_key((#[trigger] ids[i]).bytes@)
    &&& forall|k: Seq<u8>| #[trigger]
        sessions.contains_key(k) ==> exists|i: int|
            0 <= i < ids.len() && (#[trigger] ids[i]).bytes@ == k
}

/// Of these names, those of sessions that a tunnel carries.
pub open spec fn carried(sessions: Map<Seq<u8>, SessionModel>, names: Seq<Seq<u8>>) -> Seq<Seq<u8>>
    decreases names.len(),
{
    if names.len() == 0 {
        Seq::empty()
    } else {
        let front = carried(sessions, names.drop_last());
        if sessions.contains_key(names.last()) && sessions[names.last()].is_carrying() {
            front.push(names.last())
        } else {
            front
        }
    }
}

/// A session is known under this name, and a tunnel carries it.
pub open spec fn carries(sessions: Map<Seq<u8>, SessionModel>, name: Seq<u8>) -> bool {
    sessions.contains_key(name) && sessions[name].is_carrying()
}

/// The list holds the name of each session that a tunnel carries, once, ascending.
pub open spec fn lists_carrying(sessions: Map<Seq<u8>, SessionModel>, ids: Seq<SessionId>) -> bool {
    &&& ascending(names_of(ids))
    &&& forall|i: int| 0 <= i < ids.len() ==> carries(sessions, (#[trigger] ids[i]).bytes@)
    &&& forall|k: Seq<u8>| #[trigger]
        carries(sessions, k) ==> exists|i: int|
            0 <= i < ids.len() && (#[trigger] ids[i]).bytes@ == k
}

/// The names of those that a tunnel carries are among all names, in the same order.
proof fn carried_is_a_selection(sessions: Map<Seq<u8>, SessionModel>, names: Seq<Seq<u8>>)
    requires
        ascending(names),
    ensures
        ascending(carried(sessions, names)),
        forall|i: int|
            0 <= i < carried(sessions, names).len() ==> names.contains(
                #[trigger] carried(sessions, names)[i],
            ) && carries(sessions, carried(sessions, names)[i]),
        forall|k: Seq<u8>| #[trigger]
            names.contains(k) && carries(sessions, k) ==> carried(sessions, names).contains(k),
    decreases names.len(),
{
    if names.len() > 0 {
        let fewer = names.drop_last();
        let front = carried(sessions, fewer);
        let all = carried(sessions, names);
        assert(ascending(fewer)) by {
            assert forall|i: int, j: int| 0 <= i < j < fewer.len() implies octets::before(
                #[trigger] fewer[i],
                #[trigger] fewer[j],
            ) by {
                assert(fewer[i] == names[i] && fewer[j] == names[j]);
            }
        }
        carried_is_a_selection(sessions, fewer);
        assert forall|i: int| 0 <= i < all.len() implies names.contains(#[trigger] all[i])
            && carries(sessions, all[i]) by {
            if i < front.len() {
                assert(all[i] == front[i]);
                let j = choose|j: int| 0 <= j < fewer.len() && fewer[j] == front[i];
                assert(names[j] == all[i]);
            } else {
                assert(names[names.len() - 1] == all[i]);
            }
        }
        assert forall|i: int, j: int| 0 <= i < j < all.len() implies octets::before(
            #[trigger] all[i],
            #[trigger] all[j],
        ) by {
            assert(all[i] == front[i]);
            if j < front.len() {
                assert(all[j] == front[j]);
            } else {
                let n = choose|n: int| 0 <= n < fewer.len() && fewer[n] == front[i];
                assert(names[n] == all[i]);
                assert(names[names.len() - 1] == all[j]);
            }
        }
        assert forall|k: Seq<u8>| #[trigger] names.contains(k) && carries(sessions, k) implies
            all.contains(k) by {
            let n = choose|n: int| 0 <= n < names.len() && names[n] == k;
            if n < fewer.len() {
                assert(fewer[n] == k);
                assert(fewer.contains(k));
                let i = choose|i: int| 0 <= i < front.len() && front[i] == k;
                assert(all[i] == k);
            } else {
                assert(all[all.len() - 1] == k);
            }
        }
    }
}

} // verus!
