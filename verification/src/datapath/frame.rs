//! The data datagram: its 16-octet header, and the buffer budget that the MTU
//! fixes.
//!
//! Every bound comes from the overlay MTU, a number the core chose; a peer's
//! declared length is only ever compared against a capacity that already exists.

use vstd::prelude::*;

use crate::datapath::outcome::{Refused, Reject};
use crate::octets;
use crate::octets::{le32, le32_value, le64, le64_value};

verus! {

/// The type octet of a transport-data frame.
pub const TYPE_TRANSPORT_DATA: u8 = 4;

/// The data header: type, three reserved, receiver index, counter.
pub const HEADER_BYTES: usize = 16;

/// The width of the authentication tag.
pub const TAG_BYTES: usize = 16;

/// What every packet costs.
pub const OVERHEAD_BYTES: usize = 32;

/// The lowest overlay MTU: the minimum link MTU of IPv6.
pub const OVERLAY_MTU_FLOOR: u32 = 1280;

/// The largest payload that a UDP datagram carries over IPv4.
pub const DATAGRAM_CEILING: usize = 65_507;

/// A tunnel's demultiplexing index: what a peer stamps on frames addressed to us.
#[derive(Debug, Clone, Copy, PartialEq, Eq, Hash, Structural)]
pub struct ReceiverIndex(pub u32);

/// How large every buffer of one pump may be.
#[derive(Debug, Clone, Copy, PartialEq, Eq, Structural)]
pub struct Budget {
    /// The overlay MTU the budget was derived from.
    pub overlay_mtu: u32,
    /// The largest plaintext packet.
    pub plaintext: usize,
}

/// An overlay MTU that a budget can be derived from.
pub open spec fn mtu_fits(mtu: u32) -> bool {
    OVERLAY_MTU_FLOOR <= mtu && mtu + OVERHEAD_BYTES <= DATAGRAM_CEILING
}

/// The budget that an overlay MTU gives, or why it gives none.
pub open spec fn budgets(overlay_mtu: u32, r: Result<Budget, Refused>) -> bool {
    &&& mtu_fits(overlay_mtu) ==> r == Ok::<Budget, Refused>(
        Budget { overlay_mtu, plaintext: overlay_mtu as usize },
    ) && r->Ok_0.wf()
    &&& overlay_mtu < OVERLAY_MTU_FLOOR ==> r == Err::<Budget, Refused>(
        Refused::MtuBelowFloor { mtu: overlay_mtu },
    )
    &&& overlay_mtu + OVERHEAD_BYTES > DATAGRAM_CEILING ==> r == Err::<Budget, Refused>(
        Refused::MtuAboveCeiling { mtu: overlay_mtu },
    )
}

impl Budget {
    /// The plaintext capacity is an MTU within its bounds.
    pub open spec fn wf(self) -> bool {
        mtu_fits(self.overlay_mtu) && self.plaintext == self.overlay_mtu
    }

    /// Derives a budget from the overlay MTU. An MTU out of bounds is refused and
    /// never clamped: the interface and the pump must agree on it.
    pub fn new(overlay_mtu: u32) -> (r: Result<Self, Refused>)
        ensures
            budgets(overlay_mtu, r),
    {
        if overlay_mtu < OVERLAY_MTU_FLOOR {
            return Err(Refused::MtuBelowFloor { mtu: overlay_mtu });
        }
        let plaintext: usize = overlay_mtu as usize;
        if plaintext > DATAGRAM_CEILING - OVERHEAD_BYTES {
            return Err(Refused::MtuAboveCeiling { mtu: overlay_mtu });
        }
        Ok(Budget { overlay_mtu, plaintext })
    }

    /// The overlay MTU the budget was derived from.
    #[must_use]
    pub fn overlay_mtu(self) -> (mtu: u32)
        ensures
            mtu == self.overlay_mtu,
    {
        self.overlay_mtu
    }

    /// The largest plaintext packet that the tunnel carries.
    #[must_use]
    pub fn plaintext_capacity(self) -> (n: usize)
        ensures
            n == self.plaintext,
    {
        self.plaintext
    }

    /// The largest sealed record: plaintext and tag.
    #[must_use]
    pub fn record_capacity(self) -> (n: usize)
        requires
            self.wf(),
        ensures
            n == self.plaintext + TAG_BYTES,
    {
        self.plaintext + TAG_BYTES
    }

    /// The largest datagram on the wire: header, plaintext and tag.
    #[must_use]
    pub fn datagram_capacity(self) -> (n: usize)
        requires
            self.wf(),
        ensures
            n == self.plaintext + OVERHEAD_BYTES,
            n <= DATAGRAM_CEILING,
    {
        self.plaintext + OVERHEAD_BYTES
    }
}

/// The header of one transport-data frame.
#[derive(Debug, Clone, Copy, PartialEq, Eq, Structural)]
pub struct DataHeader {
    /// Whose tunnel the frame is addressed to.
    pub receiver: ReceiverIndex,
    /// The counter, which is the nonce.
    pub counter: u64,
}

/// The octets of a header, least significant first.
pub open spec fn header_octets(h: DataHeader) -> Seq<u8> {
    seq![TYPE_TRANSPORT_DATA, 0, 0, 0] + le32(h.receiver.0) + le64(h.counter)
}

/// A datagram that is a transport-data frame: room for a header and a tag, the
/// type octet, and reserved octets that are zero.
pub open spec fn is_data_frame(d: Seq<u8>) -> bool {
    &&& d.len() >= HEADER_BYTES + TAG_BYTES
    &&& d[0] == TYPE_TRANSPORT_DATA
    &&& d[1] == 0
    &&& d[2] == 0
    &&& d[3] == 0
}

/// The header that a transport-data frame carries.
pub open spec fn header_of(d: Seq<u8>) -> DataHeader {
    DataHeader {
        receiver: ReceiverIndex(le32_value(d.subrange(4, 8))),
        counter: le64_value(d.subrange(8, 16)),
    }
}

impl DataHeader {
    /// Appends the header to `out`.
    pub fn write(self, out: &mut Vec<u8>)
        ensures
            final(out)@ == old(out)@ + header_octets(self),
    {
        out.push(TYPE_TRANSPORT_DATA);
        out.push(0);
        out.push(0);
        out.push(0);
        octets::put_le32(out, self.receiver.0);
        octets::put_le64(out, self.counter);
        assert(out@ =~= old(out)@ + header_octets(self));
    }

    /// Splits a received datagram into its header and its sealed record. Every check
    /// runs before the record is opened, and none reads a length from the datagram.
    pub fn parse(datagram: &[u8]) -> (r: Result<(Self, &[u8]), Reject>)
        ensures
            match r {
                Ok((header, record)) => {
                    &&& is_data_frame(datagram@)
                    &&& header == header_of(datagram@)
                    &&& record@ == datagram@.skip(HEADER_BYTES as int)
                },
                Err(e) => !is_data_frame(datagram@) && e == Reject::Malformed,
            },
    {
        if datagram.len() < HEADER_BYTES + TAG_BYTES {
            return Err(Reject::Malformed);
        }
        if datagram[0] != TYPE_TRANSPORT_DATA {
            return Err(Reject::Malformed);
        }
        if datagram[1] != 0 || datagram[2] != 0 || datagram[3] != 0 {
            return Err(Reject::Malformed);
        }
        let receiver: u32 = octets::get_le32(datagram, 4);
        let counter: u64 = octets::get_le64(datagram, 8);
        let record = &datagram[HEADER_BYTES..datagram.len()];
        assert(record@ =~= datagram@.skip(HEADER_BYTES as int));
        Ok((DataHeader { receiver: ReceiverIndex(receiver), counter }, record))
    }
}

/// A frame reads back as it was written: the header, and the record after it.
pub proof fn a_header_round_trips(h: DataHeader, record: Seq<u8>)
    requires
        record.len() >= TAG_BYTES,
    ensures
        is_data_frame(header_octets(h) + record),
        header_of(header_octets(h) + record) == h,
        (header_octets(h) + record).skip(HEADER_BYTES as int) == record,
{
    let d = header_octets(h) + record;
    octets::le32_round_trip(h.receiver.0);
    octets::le64_round_trip(h.counter);
    assert(d.subrange(4, 8) =~= le32(h.receiver.0));
    assert(d.subrange(8, 16) =~= le64(h.counter));
    assert(d.skip(HEADER_BYTES as int) =~= record);
}

/// The buffers that one pump direction owns, allocated once from the budget.
#[derive(Debug)]
pub struct Buffers {
    /// The plaintext packet.
    pub packet: Vec<u8>,
    /// The sealed record.
    pub record: Vec<u8>,
    /// The datagram on the wire.
    pub wire: Vec<u8>,
    /// What the buffers were sized from.
    pub budget: Budget,
}

fn zeros(n: usize) -> (v: Vec<u8>)
    ensures
        v@ == Seq::new(n as nat, |i: int| 0u8),
{
    let mut v: Vec<u8> = Vec::with_capacity(n);
    assert(v@ =~= Seq::new(0, |i: int| 0u8));
    let mut i: usize = 0;
    while i < n
        invariant
            i <= n,
            v@ == Seq::new(i as nat, |i: int| 0u8),
        decreases n - i,
    {
        v.push(0);
        assert(v@ =~= Seq::new((i + 1) as nat, |i: int| 0u8));
        i += 1;
    }
    v
}

impl Buffers {
    /// Allocates one direction's buffers at their bounds.
    #[must_use]
    pub fn new(budget: Budget) -> (b: Self)
        requires
            budget.wf(),
        ensures
            b.budget == budget,
            b.packet@ == Seq::new(budget.plaintext as nat, |i: int| 0u8),
            b.record@ == Seq::<u8>::empty(),
            b.wire@ == Seq::new((budget.plaintext + OVERHEAD_BYTES) as nat, |i: int| 0u8),
    {
        Buffers {
            packet: zeros(budget.plaintext_capacity()),
            record: Vec::with_capacity(budget.record_capacity()),
            wire: zeros(budget.datagram_capacity()),
            budget,
        }
    }

    /// What the buffers were sized from.
    #[must_use]
    pub fn budget(&self) -> (b: Budget)
        ensures
            b == self.budget,
    {
        self.budget
    }

    /// What the wire buffer has allocated: never less than it holds, so that a datagram
    /// that was refused can be seen to have grown nothing. How much more it is, is the
    /// allocator's.
    #[must_use]
    pub fn wire_capacity(&self) -> (n: usize)
        ensures
            n >= self.wire@.len(),
    {
        allocated(&self.wire)
    }
}

/// Calls `Vec::capacity`: how many octets the vector can hold without being allocated
/// anew, which is never less than it holds. The allocator decides the rest.
#[verifier::external_body]
fn allocated(v: &Vec<u8>) -> (n: usize)
    ensures
        n >= v@.len(),
{
    v.capacity()
}

} // verus!
