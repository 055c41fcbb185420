//! What a pump is built from, and how it is stopped.

use vstd::prelude::*;

use crate::datapath::cancel::{every_waiter_is_woken, gives_back, raced, standing, trips, waits,
    CancelState, Raced};
use crate::datapath::frame::{budgets, header_octets, is_data_frame, Budget, DataHeader};
use crate::datapath::outcome::{Fault, Refused, Reject};
use crate::datapath::{pump_built, Datapath, Pump, PumpParts};
use crate::reason::ReasonCode;

verus! {

/// A pump is built on every overlay MTU from the least that IPv6 allows up to what one UDP
/// datagram still carries with 32 octets around it; it carries packets of just that size.
/// Any other MTU is refused and named, and so is a pump where the kernel carries packets.
pub proof fn a_pump_is_built_on_every_mtu_that_fits(
    parts: PumpParts,
    r: Result<Pump, Refused>,
    of: Result<Budget, Refused>,
)
    requires
        pump_built(parts, r),
        budgets(parts.overlay_mtu, of),
    ensures
        r is Ok <==> parts.datapath == Datapath::Userspace && 1280 <= parts.overlay_mtu <= 65475,
        of is Ok <==> 1280 <= parts.overlay_mtu <= 65475,
        r matches Ok(pump) ==> pump.budget.plaintext == parts.overlay_mtu
            && pump.budget.overlay_mtu == parts.overlay_mtu && pump.local_receiver
            == parts.local_receiver && pump.peer_receiver == parts.peer_receiver
            && pump.resume is None && of == Ok::<Budget, Refused>(pump.budget),
        parts.datapath != Datapath::Userspace ==> (r matches Err(e) && e.code()
            == ReasonCode::PlatformOsUnsupported),
        parts.datapath == Datapath::Userspace && parts.overlay_mtu < 1280 ==> (r matches Err(e)
            && e == (Refused::MtuBelowFloor { mtu: parts.overlay_mtu }) && e.code()
            == ReasonCode::NetMtuTooSmall && of == Err::<Budget, Refused>(e)),
        parts.datapath == Datapath::Userspace && parts.overlay_mtu > 65475 ==> (r matches Err(e)
            && e == (Refused::MtuAboveCeiling { mtu: parts.overlay_mtu }) && e.code()
            == ReasonCode::ProtoSizeExceeded && of == Err::<Budget, Refused>(e)),
{
}

/// A header takes 16 octets, the first of them 4 and the next three zero; the receiver and
/// then the counter follow, each with its least octet first. Only what begins so and has
/// room for a tag of 16 octets behind it is a data frame.
pub proof fn a_data_frame_begins_with_its_header(h: DataHeader, d: Seq<u8>)
    ensures
        header_octets(h).len() == 16,
        header_octets(h)[0] == 4 && header_octets(h)[1] == 0 && header_octets(h)[2] == 0
            && header_octets(h)[3] == 0,
        header_octets(h)[4] == h.receiver.0 % 256,
        header_octets(h)[8] == h.counter % 256,
        is_data_frame(d) <==> d.len() >= 32 && d[0] == 4 && d[1] == 0 && d[2] == 0 && d[3] == 0,
{
}

/// Of what is discarded only what does not authenticate has no code, so that nobody learns
/// from an answer that it was told apart; what is too large and what was cut short have the
/// same, a replay has one of its own.
pub proof fn a_discarded_datagram_is_told_by_its_kind(a: Reject, b: Reject)
    ensures
        a.code() is None <==> a == Reject::Unauthenticated,
        a.code() == Some(ReasonCode::CryptoReplayDetected) <==> a == Reject::Replay,
        a.code() == Some(ReasonCode::ProtoSizeExceeded) <==> a == Reject::Oversize || a
            == Reject::Truncated,
        a.code() == Some(ReasonCode::ProtoUnparseableEnvelope) <==> a == Reject::Malformed || a
            == Reject::ForeignReceiver,
{
}

/// A fault of the adapter keeps the adapter's own code. None of the core's own faults is
/// told as another's.
pub proof fn a_fault_keeps_its_code(fault: Fault)
    ensures
        fault matches Fault::Device(error) ==> fault.code() == error.code,
        fault is TranscriptMismatch ==> fault.code() == ReasonCode::ProtoTranscriptMismatch,
        fault is KeyStateUnusable ==> fault.code() == ReasonCode::InternalInvariantViolated,
        fault is NotEstablished || fault is NoAuthoritativeEndpoint ==> fault.code()
            == ReasonCode::InternalUnexpectedState,
{
}

/// A request to stop is reached however much work is ready; without one, work that is ready
/// is taken as it is, and work that is not is waited for.
pub proof fn a_request_to_stop_comes_first<T>(
    work: Option<T>,
    stopped: Option<Raced<T>>,
    left: Option<Raced<T>>,
)
    requires
        raced(true, work, stopped),
        raced(false, work, left),
    ensures
        stopped == Some(Raced::<T>::Cancelled),
        left is Some <==> work is Some,
        work matches Some(output) ==> left == Some(Raced::Completed(output)),
{
}

/// A wait that is registered before the request is woken by it, and whoever looks after it
/// is told at once and is not registered. A second request wakes nobody.
pub proof fn a_wait_is_woken_by_the_request<W>(
    before: CancelState<W>,
    slot: Option<usize>,
    waker: W,
    mid: CancelState<W>,
    registered: Option<usize>,
    after: CancelState<W>,
    woken: Seq<W>,
    late: CancelState<W>,
    told: Option<usize>,
    again: CancelState<W>,
    others: Seq<W>,
)
    requires
        !before.tripped,
        slot matches Some(i) ==> i < before.waiters@.len(),
        waits(before, slot, waker, mid, registered),
        trips(mid, after, woken),
        waits(after, registered, waker, late, told),
        trips(after, again, others),
    ensures
        registered is Some,
        woken.contains(waker),
        told is None && late == after,
        others.len() == 0,
        after.waiters@.len() == mid.waiters@.len(),
{
    every_waiter_is_woken(mid.waiters@);
    let at = registered->0 as int;
    assert(mid.waiters@[at] == Some(waker));
    nobody_stands(after.waiters@);
}

proof fn nobody_stands<W>(slots: Seq<Option<W>>)
    requires
        forall|i: int| 0 <= i < slots.len() ==> (#[trigger] slots[i]) is None,
    ensures
        standing(slots).len() == 0,
    decreases slots.len(),
{
    if slots.len() > 0 {
        assert(slots[slots.len() - 1] is None);
        nobody_stands(slots.drop_last());
    }
}

/// A wait that looks displaces no other: every other waker stays in its slot, and the list
/// grows only where no slot is free. A wait that is over gives up its slot and no other,
/// and the next one takes the first that is free.
pub proof fn a_wait_displaces_no_other<W>(
    before: CancelState<W>,
    slot: Option<usize>,
    waker: W,
    mid: CancelState<W>,
    registered: Option<usize>,
    after: CancelState<W>,
    i: int,
)
    requires
        !before.tripped,
        slot matches Some(j) ==> j < before.waiters@.len(),
        waits(before, slot, waker, mid, registered),
        gives_back(mid, registered->0, after),
        0 <= i < before.waiters@.len(),
    ensures
        registered is Some,
        slot is None && before.waiters@[i] is Some ==> mid.waiters@[i] == before.waiters@[i]
            && after.waiters@[i] == before.waiters@[i],
        slot matches Some(j) ==> mid.waiters@.len() == before.waiters@.len() && registered
            == Some(j) && (i != j ==> mid.waiters@[i] == before.waiters@[i] && after.waiters@[i]
            == before.waiters@[i]),
        slot is None && before.waiters@[i] is None ==> registered->0 <= i && mid.waiters@.len()
            == before.waiters@.len(),
        after.waiters@[registered->0 as int] is None,
        !after.tripped,
{
}

} // verus!
