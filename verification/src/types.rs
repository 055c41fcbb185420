//! The vocabulary the whole core shares: identifiers, addresses, endpoints and
//! prefixes, all plain values.

use vstd::prelude::*;

use crate::octets;

verus! {

/// Why a value could not be built.
#[derive(Debug, Clone, Copy, PartialEq, Eq, Structural)]
pub enum TypeError {
    /// The octet string does not have the type's length.
    Length,
    /// Port 0 names nothing.
    PortZero,
    /// A prefix longer than its family's addresses.
    PrefixTooLong,
    /// A prefix with a host bit set.
    PrefixNotCanonical,
}

/// An address family.
#[derive(Debug, Clone, Copy, PartialEq, Eq, Structural)]
pub enum AddressFamily {
    /// IPv4.
    V4,
    /// IPv6.
    V6,
}

impl AddressFamily {
    /// The prefix length that names a single host.
    pub open spec fn max_len(self) -> u8 {
        match self {
            AddressFamily::V4 => 32,
            AddressFamily::V6 => 128,
        }
    }

    /// The prefix length that names a single host.
    pub fn max_prefix_len(self) -> (n: u8)
        ensures
            n == self.max_len(),
    {
        match self {
            AddressFamily::V4 => 32,
            AddressFamily::V6 => 128,
        }
    }
}

/// One value for each address family.
#[derive(Debug, PartialEq, Eq)]
pub struct PerFamily<T> {
    /// The IPv4 value.
    pub v4: T,
    /// The IPv6 value.
    pub v6: T,
}

/// A device's identifier: 32 octets.
#[derive(Debug, Clone, Copy, PartialEq, Eq)]
pub struct DeviceId {
    /// The octets.
    pub bytes: [u8; 32],
}

impl DeviceId {
    /// An identifier from exactly 32 octets.
    pub fn from_slice(bytes: &[u8]) -> (r: Result<Self, TypeError>)
        ensures
            bytes@.len() == 32 ==> (r matches Ok(id) && id.bytes@ == bytes@),
            bytes@.len() != 32 ==> r == Err::<Self, TypeError>(TypeError::Length),
    {
        if bytes.len() != 32 {
            return Err(TypeError::Length);
        }
        let a = octets::array32(bytes, 0);
        assert(bytes@.subrange(0, 32) =~= bytes@);
        Ok(DeviceId { bytes: a })
    }

    /// Whether two identifiers are the same.
    pub fn same(&self, other: &Self) -> (b: bool)
        ensures
            b == (*self == *other),
    {
        let b = octets::same(self.bytes.as_slice(), other.bytes.as_slice());
        proof {
            if self.bytes@ == other.bytes@ {
                assert(self.bytes =~= other.bytes);
            }
        }
        b
    }
}

/// A session's identifier: 16 octets.
#[derive(Debug, Clone, Copy, PartialEq, Eq)]
pub struct SessionId {
    /// The octets.
    pub bytes: [u8; 16],
}

impl SessionId {
    /// An identifier from exactly 16 octets.
    pub fn from_slice(bytes: &[u8]) -> (r: Result<Self, TypeError>)
        ensures
            bytes@.len() == 16 ==> (r matches Ok(id) && id.bytes@ == bytes@),
            bytes@.len() != 16 ==> r == Err::<Self, TypeError>(TypeError::Length),
    {
        if bytes.len() != 16 {
            return Err(TypeError::Length);
        }
        let a = octets::array16(bytes, 0);
        assert(bytes@.subrange(0, 16) =~= bytes@);
        Ok(SessionId { bytes: a })
    }

    /// Whether two identifiers are the same.
    pub fn same(&self, other: &Self) -> (b: bool)
        ensures
            b == (*self == *other),
    {
        let b = octets::same(self.bytes.as_slice(), other.bytes.as_slice());
        proof {
            if self.bytes@ == other.bytes@ {
                assert(self.bytes =~= other.bytes);
            }
        }
        b
    }
}

/// The name of a twinnet.
#[derive(Debug, PartialEq, Eq)]
pub struct TwinnetId {
    /// The name.
    pub text: String,
}

impl TwinnetId {
    /// The name, as characters.
    pub open spec fn view(self) -> Seq<char> {
        self.text@
    }

    /// A twinnet named `text`.
    pub fn new(text: &str) -> (t: Self)
        ensures
            t@ == text@,
    {
        TwinnetId { text: text.to_owned() }
    }

    /// The name.
    pub fn as_str(&self) -> (s: &str)
        ensures
            s@ == self@,
    {
        self.text.as_str()
    }
}

impl Clone for TwinnetId {
    fn clone(&self) -> (t: Self)
        ensures
            t == *self,
    {
        TwinnetId { text: self.text.clone() }
    }
}

/// Whether two texts are the same.
pub fn same_text(a: &str, b: &str) -> (r: bool)
    ensures
        r == (a@ == b@),
{
    a.to_owned() == b.to_owned()
}

/// `a` followed by `b`.
pub fn join(a: &str, b: &str) -> (s: String)
    ensures
        s@ == a@ + b@,
{
    let mut s: String = a.to_owned();
    s.append(b);
    s
}

/// An IPv4 address.
#[derive(Debug, Clone, Copy, PartialEq, Eq)]
pub struct V4Addr {
    /// The octets, in network order.
    pub octets: [u8; 4],
}

impl V4Addr {
    /// An address from exactly 4 octets.
    pub fn from_slice(bytes: &[u8]) -> (r: Result<Self, TypeError>)
        ensures
            bytes@.len() == 4 ==> (r matches Ok(a) && a.octets@ == bytes@),
            bytes@.len() != 4 ==> r == Err::<Self, TypeError>(TypeError::Length),
    {
        if bytes.len() != 4 {
            return Err(TypeError::Length);
        }
        let a: [u8; 4] = [bytes[0], bytes[1], bytes[2], bytes[3]];
        assert(a@ =~= bytes@);
        Ok(V4Addr { octets: a })
    }
}

/// An IPv6 address, with the zone that makes a link-local one usable.
#[derive(Debug, Clone, Copy, PartialEq, Eq)]
pub struct V6Addr {
    /// The octets, in network order.
    pub octets: [u8; 16],
    /// The zone index; 0 for none.
    pub zone: u32,
}

impl V6Addr {
    /// An address from exactly 16 octets and a zone index, 0 for none.
    pub fn from_slice(bytes: &[u8], zone: u32) -> (r: Result<Self, TypeError>)
        ensures
            bytes@.len() == 16 ==> (r matches Ok(a) && a.octets@ == bytes@ && a.zone == zone),
            bytes@.len() != 16 ==> r == Err::<Self, TypeError>(TypeError::Length),
    {
        if bytes.len() != 16 {
            return Err(TypeError::Length);
        }
        let a = octets::array16(bytes, 0);
        assert(bytes@.subrange(0, 16) =~= bytes@);
        Ok(V6Addr { octets: a, zone })
    }
}

/// An address of either family.
#[derive(Debug, Clone, Copy, PartialEq, Eq)]
pub enum IpAddr {
    /// An IPv4 address.
    V4(V4Addr),
    /// An IPv6 address.
    V6(V6Addr),
}

impl IpAddr {
    /// The family the address belongs to.
    pub open spec fn family_of(self) -> AddressFamily {
        match self {
            IpAddr::V4(_) => AddressFamily::V4,
            IpAddr::V6(_) => AddressFamily::V6,
        }
    }

    /// The family the address belongs to.
    pub fn family(&self) -> (f: AddressFamily)
        ensures
            f == self.family_of(),
    {
        match self {
            IpAddr::V4(_) => AddressFamily::V4,
            IpAddr::V6(_) => AddressFamily::V6,
        }
    }
}

/// A transport port; never 0.
#[derive(Debug, Clone, Copy, PartialEq, Eq, Structural)]
pub struct Port {
    /// The number.
    pub number: u16,
}

impl Port {
    /// Port 0 names nothing.
    pub open spec fn wf(self) -> bool {
        self.number != 0
    }

    /// A port, unless it is 0.
    pub fn new(number: u16) -> (r: Result<Self, TypeError>)
        ensures
            number != 0 ==> r == Ok::<Self, TypeError>(Port { number }),
            number == 0 ==> r == Err::<Self, TypeError>(TypeError::PortZero),
    {
        if number == 0 {
            Err(TypeError::PortZero)
        } else {
            Ok(Port { number })
        }
    }
}

/// Where a peer can be reached.
#[derive(Debug, Clone, Copy, PartialEq, Eq)]
pub struct Endpoint {
    /// The address.
    pub address: IpAddr,
    /// The port.
    pub port: Port,
}

impl Endpoint {
    /// The port is one.
    pub open spec fn wf(self) -> bool {
        self.port.wf()
    }
}

/// A device's overlay addresses, one for each family.
#[derive(Debug, Clone, Copy, PartialEq, Eq)]
pub struct OverlayAddresses {
    /// The IPv4 overlay address.
    pub v4: V4Addr,
    /// The IPv6 overlay address.
    pub v6: V6Addr,
}

/// What is left of an octet's range when `bits` of it, counted from the most
/// significant, belong to the network.
pub open spec fn host_span(bits: int) -> int {
    if bits <= 0 {
        256
    } else if bits == 1 {
        128
    } else if bits == 2 {
        64
    } else if bits == 3 {
        32
    } else if bits == 4 {
        16
    } else if bits == 5 {
        8
    } else if bits == 6 {
        4
    } else if bits == 7 {
        2
    } else {
        1
    }
}

/// The host part of an octet, of which `bits` belong to the network, is zero.
pub open spec fn octet_clear(octet: u8, bits: int) -> bool {
    octet as int % host_span(bits) == 0
}

/// No bit after the first `len` is set.
pub open spec fn no_host_bits(octets: Seq<u8>, len: u8) -> bool {
    forall|k: int| 0 <= k < octets.len() ==> octet_clear(#[trigger] octets[k], len - 8 * k)
}

/// A network: an address without host bits, and how many of its bits count.
#[derive(Debug, Clone, Copy, PartialEq, Eq)]
pub struct IpPrefix {
    /// The network address.
    pub address: IpAddr,
    /// How many bits count.
    pub len: u8,
}

/// The octets of an address.
pub open spec fn address_octets(address: IpAddr) -> Seq<u8> {
    match address {
        IpAddr::V4(a) => a.octets@,
        IpAddr::V6(a) => a.octets@,
    }
}

fn octet_span(len: u8, k: usize) -> (span: u16)
    requires
        k < 16,
    ensures
        span == host_span(len - 8 * k),
        span > 0,
{
    let start: u8 = 8 * (k as u8);
    if len <= start {
        256
    } else {
        match len - start {
            1 => 128,
            2 => 64,
            3 => 32,
            4 => 16,
            5 => 8,
            6 => 4,
            7 => 2,
            _ => 1,
        }
    }
}

fn host_bits_clear(octets: &[u8], len: u8) -> (b: bool)
    requires
        octets@.len() <= 16,
    ensures
        b == no_host_bits(octets@, len),
{
    let mut k: usize = 0;
    while k < octets.len()
        invariant
            k <= octets@.len() <= 16,
            forall|j: int| 0 <= j < k ==> octet_clear(#[trigger] octets@[j], len - 8 * j),
        decreases octets@.len() - k,
    {
        let span: u16 = octet_span(len, k);
        if (octets[k] as u16) % span != 0 {
            assert(!octet_clear(octets@[k as int], len - 8 * k));
            return false;
        }
        k += 1;
    }
    true
}

impl IpPrefix {
    /// The prefix fits its family and has no host bit set.
    pub open spec fn wf(self) -> bool {
        self.len <= self.address.family_of().max_len() && no_host_bits(
            address_octets(self.address),
            self.len,
        )
    }

    /// A prefix, unless it is longer than its family's addresses or has a host bit
    /// set.
    pub fn new(address: IpAddr, len: u8) -> (r: Result<Self, TypeError>)
        ensures
            match r {
                Ok(p) => p == (IpPrefix { address, len }) && p.wf(),
                Err(e) => e == (if len > address.family_of().max_len() {
                    TypeError::PrefixTooLong
                } else {
                    TypeError::PrefixNotCanonical
                }) && !(IpPrefix { address, len }).wf(),
            },
    {
        if len > address.family().max_prefix_len() {
            return Err(TypeError::PrefixTooLong);
        }
        let clear = match &address {
            IpAddr::V4(a) => host_bits_clear(a.octets.as_slice(), len),
            IpAddr::V6(a) => host_bits_clear(a.octets.as_slice(), len),
        };
        if clear {
            Ok(IpPrefix { address, len })
        } else {
            Err(TypeError::PrefixNotCanonical)
        }
    }

    /// The network address.
    #[must_use]
    pub fn address(&self) -> (a: IpAddr)
        ensures
            a == self.address,
    {
        self.address
    }

    /// How many bits count.
    #[must_use]
    pub fn prefix_len(&self) -> (n: u8)
        ensures
            n == self.len,
    {
        self.len
    }

    /// The family.
    #[must_use]
    pub fn family(&self) -> (f: AddressFamily)
        ensures
            f == self.address.family_of(),
    {
        self.address.family()
    }
}

/// A prefix that counts every bit of its address always fits.
pub proof fn a_single_host_is_a_prefix(address: IpAddr)
    ensures
        (IpPrefix { address, len: address.family_of().max_len() }).wf(),
{
    let octets = address_octets(address);
    let len = address.family_of().max_len();
    assert forall|k: int| 0 <= k < octets.len() implies octet_clear(
        #[trigger] octets[k],
        len - 8 * k,
    ) by {
        assert(host_span(len - 8 * k) == 1);
    }
}

} // verus!
