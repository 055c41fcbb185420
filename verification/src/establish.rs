//! Gathering candidates, in both families, and probing them.
//!
//! Gathering takes what the platform answered and decides what it means: which
//! addresses are candidates, and what each family's outcome was. "IPv6 produced
//! nothing" and "nobody looked at IPv6" stay different answers.

use vstd::prelude::*;

use crate::octets;
use crate::octets::be32;
use crate::reason::ReasonCode;
use crate::types::{AddressFamily, Endpoint, IpAddr, IpPrefix, PerFamily, Port, SessionId};

verus! {

/// What one family's gathering produced.
#[derive(Debug, Clone, Copy, PartialEq, Eq, Structural)]
pub enum FamilyOutcome {
    /// The host cannot open a socket of this family.
    Unsupported,
    /// A socket opened and produced candidates.
    Gathered {
        /// How many.
        count: usize,
    },
    /// A socket opened, and no address of this family was reported.
    NoAddress,
    /// A socket opened, prefixes of this family were reported, and none names a host
    /// address.
    AddressNotReportable,
    /// The platform refused the bind.
    Refused,
}

impl FamilyOutcome {
    /// Whether this family contributed a candidate.
    #[must_use]
    pub fn produced(self) -> (b: bool)
        ensures
            b == (self is Gathered),
    {
        matches!(self, FamilyOutcome::Gathered { .. })
    }
}

/// What sort of candidate an address is.
#[derive(Debug, Clone, Copy, PartialEq, Eq, Structural)]
pub enum Kind {
    /// An IPv4 address of this host.
    HostV4Private,
    /// An IPv6 address of this host that only its link reaches.
    HostV6LinkLocal,
    /// Any other IPv6 address of this host.
    HostV6Global,
}

/// A place where this device may be reachable.
#[derive(Debug, Clone, Copy, PartialEq, Eq)]
pub struct Candidate {
    /// The candidate's name, within one attempt.
    pub id: [u8; 8],
    /// What sort it is.
    pub kind: Kind,
    /// The place.
    pub endpoint: Endpoint,
    /// When it was gathered, in microseconds.
    pub gathered_at: u64,
    /// The MTU of its interface.
    pub mtu_hint: u32,
}

/// What the platform says of one interface.
#[derive(Debug)]
pub struct InterfaceFacts {
    /// Its addresses, with their prefixes.
    pub addresses: Vec<IpPrefix>,
    /// Whether the core made it.
    pub is_overlay: bool,
    /// Whether it is up.
    pub is_up: bool,
    /// Its MTU.
    pub mtu: u32,
}

/// Which socket families the host can open.
#[derive(Debug, Clone, Copy, PartialEq, Eq, Structural)]
pub struct SupportedFamilies {
    /// IPv4.
    pub v4: bool,
    /// IPv6.
    pub v6: bool,
}

/// The family of a socket.
#[derive(Debug, Clone, Copy, PartialEq, Eq, Structural)]
pub enum SocketFamily {
    /// IPv4.
    V4,
    /// IPv6 and nothing else.
    V6Only,
    /// IPv6, and IPv4 through it.
    V6DualStack,
}

/// What a bind came to.
#[derive(Debug, Clone, Copy, PartialEq, Eq, Structural)]
pub enum Bind {
    /// It was not asked for: the host cannot.
    Unsupported,
    /// The platform refused it, or its endpoint.
    Refused,
    /// A socket opened at this port.
    Bound(Port),
}

/// The sockets that are bound on a host that can open these families.
pub open spec fn binds(
    supported: Option<SupportedFamilies>,
    plan: PerFamily<Option<SocketFamily>>,
) -> bool {
    &&& plan.v4 == (match supported {
        Some(s) if s.v4 => Some(SocketFamily::V4),
        _ => None,
    })
    &&& plan.v6 == (match supported {
        Some(s) if s.v6 => Some(SocketFamily::V6Only),
        _ => None,
    })
}

/// Which sockets to bind: one for each family that the host can open, and neither in
/// place of the other. A host that cannot say can open none.
#[must_use]
pub fn bind_plan(supported: Option<SupportedFamilies>) -> (plan: PerFamily<Option<SocketFamily>>)
    ensures
        binds(supported, plan),
{
    match supported {
        Some(s) => PerFamily {
            v4: if s.v4 { Some(SocketFamily::V4) } else { None },
            v6: if s.v6 { Some(SocketFamily::V6Only) } else { None },
        },
        None => PerFamily { v4: None, v6: None },
    }
}

/// The address of a host, where a prefix names one: a prefix that counts every bit.
pub open spec fn host_of(prefix: IpPrefix) -> Option<IpAddr> {
    if prefix.len == prefix.address.family_of().max_len() {
        Some(prefix.address)
    } else {
        None
    }
}

/// The interface's own address, where the prefix carries it. A shorter prefix names
/// a network, and a probe of its address reaches nobody.
#[must_use]
pub fn host_address(prefix: IpPrefix) -> (a: Option<IpAddr>)
    ensures
        a == host_of(prefix),
{
    if prefix.prefix_len() == prefix.family().max_prefix_len() {
        Some(prefix.address())
    } else {
        None
    }
}

/// The address is one that only its link reaches: `fe80::/10`.
pub open spec fn link_local(octets: Seq<u8>) -> bool {
    octets[0] == 0xfe && 0x80 <= octets[1] < 0xc0
}

/// What sort of candidate an address of this host is.
pub open spec fn kind_of(address: IpAddr) -> Kind {
    match address {
        IpAddr::V4(_) => Kind::HostV4Private,
        IpAddr::V6(a) => if link_local(a.octets@) {
            Kind::HostV6LinkLocal
        } else {
            Kind::HostV6Global
        },
    }
}

fn host_kind(address: &IpAddr) -> (k: Kind)
    ensures
        k == kind_of(*address),
{
    match address {
        IpAddr::V4(_) => Kind::HostV4Private,
        IpAddr::V6(a) => {
            if a.octets[0] == 0xfe && 0x80 <= a.octets[1] && a.octets[1] < 0xc0 {
                Kind::HostV6LinkLocal
            } else {
                Kind::HostV6Global
            }
        },
    }
}

/// The octets of a candidate's name: four of the session and four of its index.
pub open spec fn candidate_octets(session: SessionId, index: nat) -> Seq<u8> {
    session.bytes@.take(4) + be32(
        if index <= u32::MAX {
            index as u32
        } else {
            u32::MAX
        },
    )
}

/// A candidate's name: derived, so that an attempt can be replayed.
#[must_use]
pub fn candidate_id(session_id: SessionId, index: usize) -> (id: [u8; 8])
    ensures
        id@ == candidate_octets(session_id, index as nat),
{
    let mut tail: Vec<u8> = Vec::new();
    let n: u32 = if index <= 0xffff_ffff { index as u32 } else { 0xffff_ffff };
    octets::put_be32(&mut tail, n);
    let id: [u8; 8] = [
        session_id.bytes[0],
        session_id.bytes[1],
        session_id.bytes[2],
        session_id.bytes[3],
        tail[0],
        tail[1],
        tail[2],
        tail[3],
    ];
    assert(id@ =~= candidate_octets(session_id, index as nat));
    id
}

/// Two candidates of one attempt have two names.
pub proof fn candidate_names_are_distinct(session: SessionId, i: nat, j: nat)
    requires
        i <= u32::MAX,
        j <= u32::MAX,
        candidate_octets(session, i) == candidate_octets(session, j),
    ensures
        i == j,
{
    let a = candidate_octets(session, i);
    let b = candidate_octets(session, j);
    octets::be32_round_trip(i as u32);
    octets::be32_round_trip(j as u32);
    assert(a.subrange(4, 8) =~= be32(i as u32));
    assert(b.subrange(4, 8) =~= be32(j as u32));
}

/// The candidate can be used: a link-local address names its link.
pub open spec fn usable(c: Candidate) -> bool {
    c.endpoint.address matches IpAddr::V6(a) ==> link_local(a.octets@) ==> a.zone != 0
}

fn is_well_formed(c: &Candidate) -> (b: bool)
    ensures
        b == usable(*c),
{
    match &c.endpoint.address {
        IpAddr::V4(_) => true,
        IpAddr::V6(a) => !(a.octets[0] == 0xfe && 0x80 <= a.octets[1] && a.octets[1] < 0xc0)
            || a.zone != 0,
    }
}

/// A prefix that an interface reports, the interface's MTU, and when it was looked at.
#[derive(Debug, Clone, Copy, PartialEq, Eq)]
pub struct Reported {
    /// The prefix.
    pub prefix: IpPrefix,
    /// The MTU.
    pub mtu: u32,
    /// When, in microseconds; 0 until then.
    pub at: u64,
}

/// The prefixes of one family in a list, in order.
pub open spec fn in_family(addresses: Seq<IpPrefix>, mtu: u32, family: AddressFamily) -> Seq<
    Reported,
>
    decreases addresses.len(),
{
    if addresses.len() == 0 {
        Seq::empty()
    } else {
        let front = in_family(addresses.drop_last(), mtu, family);
        if addresses.last().address.family_of() == family {
            front.push(Reported { prefix: addresses.last(), mtu, at: 0 })
        } else {
            front
        }
    }
}

/// The prefixes of one family on every interface that is up and that the core did
/// not make: an overlay address is not an underlay candidate.
pub open spec fn reported(facts: Seq<InterfaceFacts>, family: AddressFamily) -> Seq<Reported>
    decreases facts.len(),
{
    if facts.len() == 0 {
        Seq::empty()
    } else {
        let front = reported(facts.drop_last(), family);
        let last = facts.last();
        if !last.is_overlay && last.is_up {
            front + in_family(last.addresses@, last.mtu, family)
        } else {
            front
        }
    }
}

/// A prefix that this interface reports, where it is up and the core did not make it.
pub open spec fn reports(iface: InterfaceFacts, prefix: IpPrefix) -> bool {
    &&& !iface.is_overlay
    &&& iface.is_up
    &&& iface.addresses@.contains(prefix)
}

proof fn in_family_is_listed(addresses: Seq<IpPrefix>, mtu: u32, family: AddressFamily, i: int)
    requires
        0 <= i < in_family(addresses, mtu, family).len(),
    ensures
        addresses.contains(in_family(addresses, mtu, family)[i].prefix),
        in_family(addresses, mtu, family)[i].prefix.address.family_of() == family,
    decreases addresses.len(),
{
    let front = in_family(addresses.drop_last(), mtu, family);
    if i < front.len() {
        in_family_is_listed(addresses.drop_last(), mtu, family, i);
        let prefix = front[i].prefix;
        let j = choose|j: int|
            0 <= j < addresses.drop_last().len() && addresses.drop_last()[j] == prefix;
        assert(addresses[j] == prefix);
    } else {
        assert(addresses[addresses.len() - 1] == addresses.last());
    }
}

/// Whatever is gathered from was reported by an interface that is up and that the core
/// did not make: an overlay address is never a candidate.
pub proof fn an_overlay_address_is_never_a_candidate(
    facts: Seq<InterfaceFacts>,
    family: AddressFamily,
    i: int,
)
    requires
        0 <= i < reported(facts, family).len(),
    ensures
        exists|j: int|
            0 <= j < facts.len() && #[trigger] reports(facts[j], reported(facts, family)[i].prefix),
        reported(facts, family)[i].prefix.address.family_of() == family,
    decreases facts.len(),
{
    let front = reported(facts.drop_last(), family);
    let prefix = reported(facts, family)[i].prefix;
    let last = facts.last();
    if i < front.len() {
        an_overlay_address_is_never_a_candidate(facts.drop_last(), family, i);
        let j = choose|j: int|
            0 <= j < facts.drop_last().len() && #[trigger] reports(
                facts.drop_last()[j],
                front[i].prefix,
            );
        assert(reports(facts[j], prefix));
    } else {
        in_family_is_listed(last.addresses@, last.mtu, family, i - front.len());
        assert(reports(facts[facts.len() - 1], prefix));
    }
}

fn report(facts: &Vec<InterfaceFacts>, family: AddressFamily) -> (list: Vec<Reported>)
    ensures
        list@ == reported(facts@, family),
{
    let mut list: Vec<Reported> = Vec::new();
    let mut i: usize = 0;
    assert(facts@.take(0) =~= Seq::<InterfaceFacts>::empty());
    while i < facts.len()
        invariant
            i <= facts@.len(),
            list@ == reported(facts@.take(i as int), family),
        decreases facts@.len() - i,
    {
        let iface = &facts[i];
        if !iface.is_overlay && iface.is_up {
            let ghost before = list@;
            let ghost all = iface.addresses@;
            let mut j: usize = 0;
            assert(all.take(0) =~= Seq::<IpPrefix>::empty());
            assert(list@ =~= before + in_family(all.take(0), iface.mtu, family));
            while j < iface.addresses.len()
                invariant
                    j <= all.len(),
                    all == iface.addresses@,
                    list@ == before + in_family(all.take(j as int), iface.mtu, family),
                decreases all.len() - j,
            {
                let prefix = iface.addresses[j];
                if prefix.family() == family {
                    list.push(Reported { prefix, mtu: iface.mtu, at: 0 });
                }
                proof {
                    assert(all.take(j + 1).drop_last() =~= all.take(j as int));
                    assert(list@ =~= before + in_family(all.take(j + 1), iface.mtu, family));
                }
                j += 1;
            }
            assert(all.take(all.len() as int) =~= all);
        }
        assert(facts@.take(i + 1).drop_last() =~= facts@.take(i as int));
        i += 1;
    }
    assert(facts@.take(facts@.len() as int) =~= facts@);
    list
}

/// The candidate that an address gives, as the `index`-th of its attempt.
pub open spec fn gives(
    c: Candidate,
    session: SessionId,
    index: nat,
    address: IpAddr,
    port: Port,
    now: u64,
    mtu: u32,
) -> bool {
    &&& c.id@ == candidate_octets(session, index)
    &&& c.kind == kind_of(address)
    &&& c.endpoint == (Endpoint { address, port })
    &&& c.gathered_at == now
    &&& c.mtu_hint == mtu
}

/// The reported prefix gives a candidate: it names a host that can be used.
pub open spec fn names_a_candidate(r: Reported) -> bool {
    match host_of(r.prefix) {
        Some(address) => match address {
            IpAddr::V6(a) => link_local(a.octets@) ==> a.zone != 0,
            IpAddr::V4(_) => true,
        },
        None => false,
    }
}

/// Those of a list that give candidates, in order.
pub open spec fn candidates_in(list: Seq<Reported>) -> Seq<Reported>
    decreases list.len(),
{
    if list.len() == 0 {
        Seq::empty()
    } else {
        let front = candidates_in(list.drop_last());
        if names_a_candidate(list.last()) {
            front.push(list.last())
        } else {
            front
        }
    }
}

/// Some prefix of a list names no host.
pub open spec fn some_not_reportable(list: Seq<Reported>) -> bool {
    exists|i: int| 0 <= i < list.len() && host_of(#[trigger] list[i].prefix) is None
}

/// `cs`, from position `start` on, are the candidates that a list of reported
/// prefixes gives, one for each that names a usable host, in order.
pub open spec fn gathered_from(
    cs: Seq<Candidate>,
    start: int,
    list: Seq<Reported>,
    session: SessionId,
    port: Port,
) -> bool {
    let named = candidates_in(list);
    &&& cs.len() == start + named.len()
    &&& forall|i: int|
        0 <= i < named.len() ==> host_of((#[trigger] named[i]).prefix) is Some && gives(
            cs[start + i],
            session,
            (start + i) as nat,
            host_of(named[i].prefix)->0,
            port,
            named[i].at,
            named[i].mtu,
        )
}

/// A family's outcome, from its bind and from what was reported.
pub open spec fn family_outcome(bind: Bind, list: Seq<Reported>) -> FamilyOutcome {
    match bind {
        Bind::Unsupported => FamilyOutcome::Unsupported,
        Bind::Refused => FamilyOutcome::Refused,
        Bind::Bound(_) => if candidates_in(list).len() > 0 {
            FamilyOutcome::Gathered { count: candidates_in(list).len() as usize }
        } else if some_not_reportable(list) {
            FamilyOutcome::AddressNotReportable
        } else {
            FamilyOutcome::NoAddress
        },
    }
}

/// How many candidates a family contributes.
pub open spec fn contributes(bind: Bind, list: Seq<Reported>) -> nat {
    match bind {
        Bind::Bound(_) => candidates_in(list).len(),
        _ => 0,
    }
}

fn gather_family(
    candidates: &mut Vec<Candidate>,
    session_id: SessionId,
    list: &Vec<Reported>,
    bind: Bind,
) -> (outcome: FamilyOutcome)
    requires
        bind matches Bind::Bound(port) ==> port.wf(),
    ensures
        outcome == family_outcome(bind, list@),
        final(candidates)@.len() == old(candidates)@.len() + contributes(bind, list@),
        final(candidates)@.take(old(candidates)@.len() as int) == old(candidates)@,
        bind matches Bind::Bound(port) ==> gathered_from(
            final(candidates)@,
            old(candidates)@.len() as int,
            list@,
            session_id,
            port,
        ),
{
    let port = match bind {
        Bind::Unsupported => {
            assert(candidates@.take(candidates@.len() as int) =~= candidates@);
            return FamilyOutcome::Unsupported;
        },
        Bind::Refused => {
            assert(candidates@.take(candidates@.len() as int) =~= candidates@);
            return FamilyOutcome::Refused;
        },
        Bind::Bound(port) => port,
    };
    let ghost start = candidates@.len() as int;
    let ghost before = candidates@;
    let first: usize = candidates.len();
    let mut not_reportable = false;
    let mut i: usize = 0;
    assert(list@.take(0) =~= Seq::<Reported>::empty());
    assert(candidates@.take(start) =~= before);
    while i < list.len()
        invariant
            i <= list@.len(),
            start == before.len() == first,
            candidates@.len() >= start,
            candidates@.take(start) == before,
            gathered_from(candidates@, start, list@.take(i as int), session_id, port),
            not_reportable == some_not_reportable(list@.take(i as int)),
        decreases list@.len() - i,
    {
        let r = list[i];
        let ghost done = list@.take(i as int);
        let ghost next = list@.take(i + 1);
        let ghost named = candidates_in(done);
        proof {
            assert(next.drop_last() =~= done);
            assert(next.last() == r);
        }
        match host_address(r.prefix) {
            None => {
                not_reportable = true;
                assert(next[i as int].prefix == r.prefix);
                assert(some_not_reportable(next));
                assert(candidates_in(next) =~= named);
            },
            Some(address) => {
                let candidate = Candidate {
                    id: candidate_id(session_id, candidates.len()),
                    kind: host_kind(&address),
                    endpoint: Endpoint { address, port },
                    gathered_at: r.at,
                    mtu_hint: r.mtu,
                };
                let fits = is_well_formed(&candidate);
                let ghost cs = candidates@;
                if fits {
                    candidates.push(candidate);
                    proof {
                        let more = candidates_in(next);
                        assert(more =~= named.push(r));
                        assert forall|k: int| 0 <= k < more.len() implies host_of(
                            (#[trigger] more[k]).prefix,
                        ) is Some && gives(
                            candidates@[start + k],
                            session_id,
                            (start + k) as nat,
                            host_of(more[k].prefix)->0,
                            port,
                            more[k].at,
                            more[k].mtu,
                        ) by {
                            if k < named.len() {
                                assert(more[k] == named[k]);
                                assert(candidates@[start + k] == cs[start + k]);
                            }
                        }
                        assert(candidates@.take(start) =~= before);
                    }
                } else {
                    assert(candidates_in(next) =~= named);
                }
                proof {
                    if some_not_reportable(done) {
                        let k = choose|k: int|
                            0 <= k < done.len() && host_of(#[trigger] done[k].prefix) is None;
                        assert(next[k].prefix == done[k].prefix);
                    }
                    if some_not_reportable(next) {
                        let k = choose|k: int|
                            0 <= k < next.len() && host_of(#[trigger] next[k].prefix) is None;
                        assert(k < done.len());
                        assert(done[k].prefix == next[k].prefix);
                    }
                }
            },
        }
        i += 1;
    }
    assert(list@.take(list@.len() as int) =~= list@);
    let produced: usize = candidates.len() - first;
    if produced > 0 {
        FamilyOutcome::Gathered { count: produced }
    } else if not_reportable {
        FamilyOutcome::AddressNotReportable
    } else {
        FamilyOutcome::NoAddress
    }
}

/// One gathering round's result.
#[derive(Debug)]
pub struct Gathered {
    /// The candidates, IPv4 before IPv6.
    pub candidates: Vec<Candidate>,
    /// Each family's outcome.
    pub v4: FamilyOutcome,
    /// Each family's outcome.
    pub v6: FamilyOutcome,
}

impl Gathered {
    /// Whether exactly one family produced anything.
    #[must_use]
    pub fn single_family(&self) -> (b: bool)
        ensures
            b == (self.v4 is Gathered != self.v6 is Gathered),
    {
        self.v4.produced() != self.v6.produced()
    }

    /// Whether neither family produced a candidate.
    #[must_use]
    pub fn no_candidate_either_family(&self) -> (b: bool)
        ensures
            b == (self.candidates@.len() == 0),
    {
        self.candidates.len() == 0
    }

    /// Whether there is a candidate.
    #[must_use]
    pub fn usable_candidate(&self) -> (b: bool)
        ensures
            b == (self.candidates@.len() > 0),
    {
        self.candidates.len() > 0
    }
}

/// What the interfaces report for a family; nothing where the table was refused.
pub open spec fn reported_by(interfaces: Option<Vec<InterfaceFacts>>, family: AddressFamily) -> Seq<
    Reported,
> {
    match interfaces {
        Some(facts) => reported(facts@, family),
        None => Seq::empty(),
    }
}

/// A list of reported prefixes, each looked at when the list of times says.
pub open spec fn looked_at(list: Seq<Reported>, times: Seq<u64>) -> Seq<Reported> {
    Seq::new(list.len(), |i: int| Reported { at: times[i], ..list[i] })
}

/// How many addresses of each family the interfaces report: a time is read for each.
#[must_use]
pub fn addresses_reported(interfaces: &Option<Vec<InterfaceFacts>>) -> (n: PerFamily<usize>)
    ensures
        n.v4 == reported_by(*interfaces, AddressFamily::V4).len(),
        n.v6 == reported_by(*interfaces, AddressFamily::V6).len(),
{
    match interfaces {
        Some(facts) => PerFamily {
            v4: report(facts, AddressFamily::V4).len(),
            v6: report(facts, AddressFamily::V6).len(),
        },
        None => PerFamily { v4: 0, v6: 0 },
    }
}

fn look(list: &mut Vec<Reported>, times: &Vec<u64>)
    requires
        old(list)@.len() <= times@.len(),
    ensures
        final(list)@ == looked_at(old(list)@, times@),
{
    let ghost before = list@;
    let n: usize = list.len();
    let mut i: usize = 0;
    while i < n
        invariant
            i <= n == list@.len() == before.len(),
            n <= times@.len(),
            forall|j: int| 0 <= j < i ==> list@[j] == looked_at(before, times@)[j],
            forall|j: int| i <= j < n ==> list@[j] == before[j],
        decreases n - i,
    {
        let r = list[i];
        list[i] = Reported { at: times[i], ..r };
        i += 1;
    }
    assert(list@ =~= looked_at(before, times@));
}

/// Gathers the host candidates of both families: one for each address that an
/// interface reports, at the port that the family's socket got and at the time that it
/// was looked at. `interfaces` is `None` where the platform refused to list them.
#[must_use]
pub fn gather(
    session_id: SessionId,
    interfaces: &Option<Vec<InterfaceFacts>>,
    v4: Bind,
    v6: Bind,
    times: &PerFamily<Vec<u64>>,
) -> (g: Gathered)
    requires
        v4 matches Bind::Bound(port) ==> port.wf(),
        v6 matches Bind::Bound(port) ==> port.wf(),
        reported_by(*interfaces, AddressFamily::V4).len() <= times.v4@.len(),
        reported_by(*interfaces, AddressFamily::V6).len() <= times.v6@.len(),
    ensures
        gathers(g, session_id, *interfaces, v4, v6, times.v4@, times.v6@),
{
    let (list4, list6): (Vec<Reported>, Vec<Reported>) = match interfaces {
        Some(facts) => (report(facts, AddressFamily::V4), report(facts, AddressFamily::V6)),
        None => (Vec::new(), Vec::new()),
    };
    assert(list4@ =~= reported_by(*interfaces, AddressFamily::V4));
    assert(list6@ =~= reported_by(*interfaces, AddressFamily::V6));
    let mut list4 = list4;
    let mut list6 = list6;
    look(&mut list4, &times.v4);
    look(&mut list6, &times.v6);
    let mut candidates: Vec<Candidate> = Vec::new();
    let out4 = gather_family(&mut candidates, session_id, &list4, v4);
    let ghost first = candidates@;
    let out6 = gather_family(&mut candidates, session_id, &list6, v6);
    assert(candidates@.take(first.len() as int) =~= first);
    Gathered { candidates, v4: out4, v6: out6 }
}

/// `g` is what a round gathers: the IPv4 candidates, and after them the IPv6 ones.
pub open spec fn gathers(
    g: Gathered,
    session: SessionId,
    interfaces: Option<Vec<InterfaceFacts>>,
    v4: Bind,
    v6: Bind,
    times4: Seq<u64>,
    times6: Seq<u64>,
) -> bool {
    let list4 = looked_at(reported_by(interfaces, AddressFamily::V4), times4);
    let list6 = looked_at(reported_by(interfaces, AddressFamily::V6), times6);
    let n4 = contributes(v4, list4);
    &&& g.v4 == family_outcome(v4, list4)
    &&& g.v6 == family_outcome(v6, list6)
    &&& g.candidates@.len() == n4 + contributes(v6, list6)
    &&& v4 matches Bind::Bound(port) ==> gathered_from(
        g.candidates@.take(n4 as int),
        0,
        list4,
        session,
        port,
    )
    &&& v6 matches Bind::Bound(port) ==> gathered_from(
        g.candidates@,
        n4 as int,
        list6,
        session,
        port,
    )
}

/// What a gathering round found, and the sockets it found it on.
#[derive(Debug)]
pub struct Round {
    /// What was found.
    pub gathered: Gathered,
    /// The sockets.
    pub sockets: Vec<SocketFamily>,
}

/// What a family's bind came to: one that the plan does not ask for is not supported,
/// whatever came back.
pub open spec fn planned(family: Option<SocketFamily>, bind: Bind) -> Bind {
    if family is Some {
        bind
    } else {
        Bind::Unsupported
    }
}

/// The socket that a family's bind leaves, if it opened one.
pub open spec fn kept(family: Option<SocketFamily>, bind: Bind) -> Seq<SocketFamily> {
    match (family, bind) {
        (Some(family), Bind::Bound(_)) => seq![family],
        _ => Seq::empty(),
    }
}

/// The sockets that a round keeps: those that opened, the IPv4 one first.
#[must_use]
pub fn kept_sockets(plan: &PerFamily<Option<SocketFamily>>, v4: Bind, v6: Bind) -> (sockets: Vec<
    SocketFamily,
>)
    ensures
        sockets@ == kept(plan.v4, v4) + kept(plan.v6, v6),
{
    let mut sockets: Vec<SocketFamily> = Vec::new();
    if let (Some(family), Bind::Bound(_)) = (plan.v4, v4) {
        sockets.push(family);
    }
    if let (Some(family), Bind::Bound(_)) = (plan.v6, v6) {
        sockets.push(family);
    }
    assert(sockets@ =~= kept(plan.v4, v4) + kept(plan.v6, v6));
    sockets
}

/// Takes what the binds of a plan came to, and gathers a round on the sockets that
/// opened.
#[must_use]
pub fn gather_round(
    session_id: SessionId,
    plan: &PerFamily<Option<SocketFamily>>,
    interfaces: &Option<Vec<InterfaceFacts>>,
    v4: Bind,
    v6: Bind,
    times: &PerFamily<Vec<u64>>,
) -> (round: Round)
    requires
        v4 matches Bind::Bound(port) ==> port.wf(),
        v6 matches Bind::Bound(port) ==> port.wf(),
        reported_by(*interfaces, AddressFamily::V4).len() <= times.v4@.len(),
        reported_by(*interfaces, AddressFamily::V6).len() <= times.v6@.len(),
    ensures
        gathers(
            round.gathered,
            session_id,
            *interfaces,
            planned(plan.v4, v4),
            planned(plan.v6, v6),
            times.v4@,
            times.v6@,
        ),
        round.sockets@ == kept(plan.v4, v4) + kept(plan.v6, v6),
{
    let asked4 = if plan.v4.is_some() { v4 } else { Bind::Unsupported };
    let asked6 = if plan.v6.is_some() { v6 } else { Bind::Unsupported };
    Round {
        gathered: gather(session_id, interfaces, asked4, asked6, times),
        sockets: kept_sockets(plan, v4, v6),
    }
}

/// A round has a candidate exactly where one of the families says that it gathered
/// some.
pub proof fn candidates_and_outcomes_agree(
    v4: Bind,
    list4: Seq<Reported>,
    v6: Bind,
    list6: Seq<Reported>,
)
    ensures
        contributes(v4, list4) + contributes(v6, list6) > 0 <==> family_outcome(v4, list4)
            is Gathered || family_outcome(v6, list6) is Gathered,
{
}

/// How a candidate stands.
#[derive(Debug, Clone, Copy, PartialEq, Eq)]
pub enum Standing {
    /// It was recorded.
    Gathered,
    /// A probe left the host. It does not carry traffic: nothing was validated.
    Probing,
    /// A probe did not leave the host.
    Failed(ReasonCode),
}

/// A candidate and how it stands.
#[derive(Debug, Clone, Copy, PartialEq, Eq)]
pub struct Row {
    /// The candidate.
    pub candidate: Candidate,
    /// How it stands.
    pub standing: Standing,
}

/// What a round that was admitted starts: the candidates to race from a moment on, and
/// when the first direct probe was, which tells whether a relay was gathered before it.
#[derive(Debug)]
pub struct Admission {
    /// The candidates to race.
    pub candidates: Vec<Candidate>,
    /// When the race starts, in microseconds.
    pub now: u64,
    /// When the first direct probe was, where there is a candidate for one.
    pub first_direct_probe: Option<u64>,
}

/// The rows of a round's candidates.
pub open spec fn rows_of(candidates: Seq<Candidate>) -> Seq<Row> {
    candidates.map_values(|c: Candidate| (Row { candidate: c, standing: Standing::Gathered }))
}

/// What admitting a round starts: its candidates are raced from now on, and the first
/// direct probe is stamped where there is one.
pub open spec fn admission(gathered: Gathered, now: u64) -> Admission {
    Admission {
        candidates: gathered.candidates,
        now,
        first_direct_probe: if gathered.candidates@.len() > 0 {
            Some(now)
        } else {
            None
        },
    }
}

/// Admits a round: one row is recorded for each candidate, after those that are there,
/// the first direct probe is stamped, and the candidates are handed over to be raced.
pub fn admit_round(rows: &mut Vec<Row>, gathered: Gathered, now: u64) -> (a: Admission)
    ensures
        final(rows)@ == old(rows)@ + rows_of(gathered.candidates@),
        a == admission(gathered, now),
{
    record_round(rows, &gathered);
    let first_direct_probe = if gathered.candidates.len() > 0 { Some(now) } else { None };
    Admission { candidates: gathered.candidates, now, first_direct_probe }
}

/// Records a round: one row for each candidate, after those that are there.
fn record_round(rows: &mut Vec<Row>, gathered: &Gathered)
    ensures
        final(rows)@ == old(rows)@ + rows_of(gathered.candidates@),
{
    let ghost before = rows@;
    let ghost all = gathered.candidates@;
    let ghost f = |c: Candidate| (Row { candidate: c, standing: Standing::Gathered });
    let mut i: usize = 0;
    assert(rows@ =~= before + all.take(0).map_values(f));
    while i < gathered.candidates.len()
        invariant
            i <= all.len(),
            all == gathered.candidates@,
            f == (|c: Candidate| (Row { candidate: c, standing: Standing::Gathered })),
            rows@ == before + all.take(i as int).map_values(f),
        decreases all.len() - i,
    {
        rows.push(Row { candidate: gathered.candidates[i], standing: Standing::Gathered });
        proof {
            assert(all.take(i + 1).map_values(f) =~= all.take(i as int).map_values(f).push(
                f(all[i as int]),
            ));
            assert(rows@ =~= before + all.take(i + 1).map_values(f));
        }
        i += 1;
    }
    assert(all.take(all.len() as int) =~= all);
}

/// A socket of this family reaches an endpoint of that one.
pub open spec fn reaches(socket: SocketFamily, family: AddressFamily) -> bool {
    match family {
        AddressFamily::V4 => socket == SocketFamily::V4 || socket == SocketFamily::V6DualStack,
        AddressFamily::V6 => socket == SocketFamily::V6Only || socket == SocketFamily::V6DualStack,
    }
}

fn socket_family_matches(socket: SocketFamily, family: AddressFamily) -> (b: bool)
    ensures
        b == reaches(socket, family),
{
    match family {
        AddressFamily::V4 => matches!(socket, SocketFamily::V4 | SocketFamily::V6DualStack),
        AddressFamily::V6 => matches!(socket, SocketFamily::V6Only | SocketFamily::V6DualStack),
    }
}

/// The candidates of a list that share the peer's family, in order.
pub open spec fn same_family(due: Seq<Candidate>, family: AddressFamily) -> Seq<Candidate>
    decreases due.len(),
{
    if due.len() == 0 {
        Seq::empty()
    } else {
        let front = same_family(due.drop_last(), family);
        if due.last().endpoint.address.family_of() == family {
            front.push(due.last())
        } else {
            front
        }
    }
}

/// `at` is the first socket that reaches the family.
pub open spec fn first_socket(sockets: Seq<SocketFamily>, family: AddressFamily, at: usize) -> bool {
    &&& at < sockets.len()
    &&& reaches(sockets[at as int], family)
    &&& forall|i: int| 0 <= i < at ==> !reaches(#[trigger] sockets[i], family)
}

/// Whom to probe, and from which socket: the due candidates of the peer's own family,
/// from the first socket that reaches it. Without a peer, or without such a socket,
/// nobody.
pub open spec fn plans_probes(
    sockets: Seq<SocketFamily>,
    due: Seq<Candidate>,
    peer: Option<Endpoint>,
    plan: Option<(usize, Vec<Candidate>)>,
) -> bool {
    match peer {
        None => plan is None,
        Some(peer) => {
            let family = peer.address.family_of();
            match plan {
                Some((at, probes)) => first_socket(sockets, family, at) && probes@ == same_family(
                    due,
                    family,
                ),
                None => forall|i: int|
                    0 <= i < sockets.len() ==> !reaches(#[trigger] sockets[i], family),
            }
        },
    }
}

/// Whom to probe, and from which socket: a candidate that was never probed must not read
/// as one that failed.
#[must_use]
pub fn probe_plan(
    sockets: &Vec<SocketFamily>,
    due: &Vec<Candidate>,
    peer: Option<Endpoint>,
) -> (plan: Option<(usize, Vec<Candidate>)>)
    ensures
        plans_probes(sockets@, due@, peer, plan),
{
    let peer = match peer {
        Some(peer) => peer,
        None => {
            return None;
        },
    };
    let family = peer.address.family();
    let mut at: usize = 0;
    while at < sockets.len() && !socket_family_matches(sockets[at], family)
        invariant
            at <= sockets@.len(),
            forall|i: int| 0 <= i < at ==> !reaches(#[trigger] sockets@[i], family),
        decreases sockets@.len() - at,
    {
        at += 1;
    }
    if at == sockets.len() {
        return None;
    }
    let mut probes: Vec<Candidate> = Vec::new();
    let mut i: usize = 0;
    assert(due@.take(0) =~= Seq::<Candidate>::empty());
    while i < due.len()
        invariant
            i <= due@.len(),
            probes@ == same_family(due@.take(i as int), family),
        decreases due@.len() - i,
    {
        if due[i].endpoint.address.family() == family {
            probes.push(due[i]);
        }
        assert(due@.take(i + 1).drop_last() =~= due@.take(i as int));
        i += 1;
    }
    assert(due@.take(due@.len() as int) =~= due@);
    Some((at, probes))
}

/// How a candidate stands after its probe was handed to the socket.
pub open spec fn standing_after(sent: bool) -> Standing {
    if sent {
        Standing::Probing
    } else {
        Standing::Failed(ReasonCode::NetNoRoute)
    }
}

/// The rows after one probe: those of the candidate stand anew, the others as they
/// did.
pub open spec fn probed_rows(rows: Seq<Row>, id: [u8; 8], sent: bool) -> Seq<Row> {
    rows.map_values(
        |r: Row|
            if r.candidate.id == id {
                Row { standing: standing_after(sent), ..r }
            } else {
                r
            },
    )
}

/// Takes whether one probe left the host: 1 if it did. A candidate whose probe did
/// not leave stays, with its reason.
pub fn probe(rows: &mut Vec<Row>, id: [u8; 8], sent: bool) -> (n: usize)
    ensures
        final(rows)@ == probed_rows(old(rows)@, id, sent),
        n == (if sent {
            1usize
        } else {
            0usize
        }),
{
    let ghost before = rows@;
    let standing = if sent {
        Standing::Probing
    } else {
        Standing::Failed(ReasonCode::NetNoRoute)
    };
    let n: usize = rows.len();
    let mut i: usize = 0;
    while i < n
        invariant
            i <= n == rows@.len() == before.len(),
            standing == standing_after(sent),
            forall|j: int| 0 <= j < i ==> rows@[j] == probed_rows(before, id, sent)[j],
            forall|j: int| i <= j < n ==> rows@[j] == before[j],
        decreases n - i,
    {
        let row = rows[i];
        let same = octets::same(row.candidate.id.as_slice(), id.as_slice());
        proof {
            if same {
                assert(row.candidate.id =~= id);
            }
        }
        if same {
            rows[i] = Row { candidate: row.candidate, standing };
        }
        i += 1;
    }
    assert(rows@ =~= probed_rows(before, id, sent));
    if sent {
        1
    } else {
        0
    }
}

/// A probe never validates a path: no probe takes a candidate beyond probing.
pub proof fn a_probe_validates_nothing(rows: Seq<Row>, id: [u8; 8], sent: bool, i: int)
    requires
        0 <= i < rows.len(),
    ensures
        probed_rows(rows, id, sent)[i].candidate == rows[i].candidate,
        probed_rows(rows, id, sent)[i].standing == rows[i].standing || probed_rows(
            rows,
            id,
            sent,
        )[i].standing == standing_after(sent),
{
}

} // verus!
