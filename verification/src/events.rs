//! One instance, one totally ordered event stream.
//!
//! The queue is bounded. An overflow drops the oldest event and records the gap,
//! and the next read is a marker that announces it, before any further event: a
//! consumer that sees no marker has missed nothing.

use std::collections::VecDeque;
use vstd::prelude::*;

use crate::reason::{Diagnostic, ReasonCode};
use crate::session::SessionState;
use crate::types::{DeviceId, SessionId};

verus! {

/// A transition that a session's machine took.
#[derive(Debug, Clone, Copy, PartialEq, Eq)]
pub struct TransitionRecord {
    /// Whose machine.
    pub session_id: SessionId,
    /// The state that was left.
    pub from: SessionState,
    /// The state that was reached.
    pub to: SessionState,
    /// Why.
    pub reason: Option<ReasonCode>,
}

/// A local, device-authoritative fact about a session.
#[derive(Debug, Clone, Copy, PartialEq, Eq)]
pub enum SessionEvent {
    /// A connection was asked for.
    ConnectionRequested {
        /// The session.
        session_id: SessionId,
        /// Where the session stands.
        state: SessionState,
        /// The peer.
        peer: DeviceId,
        /// Whether a user asked, rather than policy.
        by_user: bool,
    },
    /// What is known of the session's candidates.
    CandidateUpdated {
        /// The session.
        session_id: SessionId,
        /// Where the session stands.
        state: SessionState,
        /// Whether exactly one address family produced candidates.
        single_family: bool,
    },
}

/// What an event carries.
#[derive(Debug, PartialEq, Eq)]
pub enum CoreEventKind {
    /// A state-machine transition.
    Transition(TransitionRecord),
    /// A local fact about a session.
    SessionEvent(SessionEvent),
    /// A diagnostic was raised.
    Diagnostic(Diagnostic),
    /// A submitted command completed.
    CommandCompleted {
        /// Which operation.
        op: &'static str,
        /// The result, encoded; or empty.
        result: Vec<u8>,
    },
    /// A submitted command was rejected.
    CommandRejected {
        /// Which operation.
        op: &'static str,
        /// Why.
        diagnostic: Diagnostic,
    },
    /// A marker that announces a gap.
    Compacted {
        /// The highest sequence number that the gap took.
        up_to_seq: u64,
        /// How many events were dropped.
        dropped: u64,
    },
}

/// One event on the stream.
#[derive(Debug, PartialEq, Eq)]
pub struct CoreEvent {
    /// Strictly increasing, with no gaps except where a
    /// [`CoreEventKind::Compacted`] marker announces one.
    pub seq: u64,
    /// What happened.
    pub kind: CoreEventKind,
    /// The principal whose call produced this, or `None` for an internal cause.
    pub actor_principal: Option<String>,
}

/// The watermark of a desktop: 256 events.
pub const DEFAULT_CAPACITY: usize = 256;

/// The watermark of a router: 64 events.
pub const ROUTER_CAPACITY: usize = 64;

/// What one look at the stream gave.
#[derive(Debug, PartialEq, Eq)]
pub enum Polled {
    /// An event.
    Event(CoreEvent),
    /// Nothing, and nothing to wait for: a wake was consumed, or the stream is
    /// closed.
    Nothing,
    /// Nothing yet.
    Wait,
}

/// The bounded, totally ordered stream.
#[derive(Debug)]
pub struct EventStream {
    /// The events still to be read, oldest first.
    pub queue: VecDeque<CoreEvent>,
    /// The next sequence number.
    pub next_seq: u64,
    /// A gap that is not yet announced: the highest number it took, and how many.
    pub pending_gap: Option<(u64, u64)>,
    /// Whether a wake is outstanding.
    pub woken: bool,
    /// Whether the stream is closed.
    pub closed: bool,
    /// How many events the queue holds at most.
    pub capacity: usize,
}

/// What a stream holds.
#[verifier::ext_equal]
pub struct StreamModel {
    /// The events still to be read, oldest first.
    pub queue: Seq<CoreEvent>,
    /// The next sequence number.
    pub next_seq: u64,
    /// A gap that is not yet announced: the highest number it took, and how many.
    pub pending_gap: Option<(u64, u64)>,
    /// Whether a wake is outstanding.
    pub woken: bool,
    /// Whether the stream is closed.
    pub closed: bool,
    /// How many events the queue holds at most.
    pub capacity: usize,
}

impl StreamModel {
    /// The stream after an event was published: it stands last, and the oldest is
    /// dropped where the queue was full. A closed stream takes nothing.
    pub open spec fn published(self, kind: CoreEventKind, actor_principal: Option<String>) -> Self {
        let event = CoreEvent { seq: self.next_seq, kind, actor_principal };
        if self.closed {
            self
        } else if self.queue.len() >= self.capacity {
            StreamModel {
                queue: self.queue.drop_first().push(event),
                next_seq: (self.next_seq + 1) as u64,
                pending_gap: Some(
                    (
                        self.queue[0].seq,
                        match self.pending_gap {
                            Some((_, dropped)) => (dropped + 1) as u64,
                            None => 1,
                        },
                    ),
                ),
                ..self
            }
        } else {
            StreamModel {
                queue: self.queue.push(event),
                next_seq: (self.next_seq + 1) as u64,
                ..self
            }
        }
    }
}

impl StreamModel {
    /// What a look at the stream finds: a gap that is not yet announced comes first, as
    /// a marker, and then the oldest event.
    pub open spec fn readable(self) -> Option<CoreEvent> {
        match self.pending_gap {
            Some((up_to_seq, dropped)) => Some(
                CoreEvent {
                    seq: up_to_seq,
                    kind: CoreEventKind::Compacted { up_to_seq, dropped },
                    actor_principal: None,
                },
            ),
            None => if self.queue.len() > 0 {
                Some(self.queue[0])
            } else {
                None
            },
        }
    }

    /// The stream after a look: what was found is gone. A wake is consumed by the look
    /// that finds nothing else.
    pub open spec fn after_look(self) -> StreamModel {
        if self.pending_gap is Some {
            StreamModel { pending_gap: None, ..self }
        } else if self.queue.len() > 0 {
            StreamModel { queue: self.queue.drop_first(), ..self }
        } else {
            StreamModel { woken: false, ..self }
        }
    }
}

impl EventStream {
    /// What the stream holds.
    pub open spec fn view(self) -> StreamModel {
        StreamModel {
            queue: self.queue@,
            next_seq: self.next_seq,
            pending_gap: self.pending_gap,
            woken: self.woken,
            closed: self.closed,
            capacity: self.capacity,
        }
    }

    /// The queue is within its bound, its numbers run without a gap up to the last
    /// one assigned, and a gap that is not yet announced stands directly before it.
    pub open spec fn wf(self) -> bool {
        &&& self.capacity >= 8
        &&& self.queue@.len() <= self.capacity
        &&& self.queue@.len() < self.next_seq
        &&& forall|i: int|
            0 <= i < self.queue@.len() ==> (#[trigger] self.queue@[i]).seq == self.next_seq
                - self.queue@.len() + i
        &&& self.pending_gap matches Some((up_to, dropped)) ==> up_to == self.next_seq
            - self.queue@.len() - 1 && 1 <= dropped <= up_to
    }

    /// The highest number that has been read, or announced as dropped.
    pub open spec fn read_up_to(self) -> int {
        self.next_seq - self.queue@.len() - 1 - (match self.pending_gap {
            Some((_, dropped)) => dropped as int,
            None => 0,
        })
    }

    /// A stream that holds at most `capacity` events, and never fewer than eight.
    #[must_use]
    pub fn new(capacity: usize) -> (s: Self)
        ensures
            s.wf(),
            s.queue@ == Seq::<CoreEvent>::empty(),
            s.next_seq == 1,
            s.pending_gap is None,
            !s.woken,
            !s.closed,
            s.capacity == (if capacity < 8 {
                8
            } else {
                capacity
            }),
            s.read_up_to() == 0,
    {
        EventStream {
            queue: VecDeque::new(),
            next_seq: 1,
            pending_gap: None,
            woken: false,
            closed: false,
            capacity: if capacity < 8 { 8 } else { capacity },
        }
    }

    /// Publishes an event, without blocking: the number it was given, or `None`
    /// once the stream is closed.
    pub fn publish(&mut self, kind: CoreEventKind, actor_principal: Option<String>) -> (seq: Option<
        u64,
    >)
        requires
            old(self).wf(),
            old(self).next_seq < u64::MAX,
        ensures
            final(self).wf(),
            old(self).closed ==> seq is None && *final(self) == *old(self),
            !old(self).closed ==> seq == Some(old(self).next_seq),
            final(self)@ == old(self)@.published(kind, actor_principal),
            final(self).read_up_to() == old(self).read_up_to(),
    {
        if self.closed {
            return None;
        }
        let seq: u64 = self.next_seq;
        self.next_seq += 1;
        if self.queue.len() >= self.capacity {
            match self.queue.pop_front() {
                Some(evicted) => {
                    let (up_to, count): (u64, u64) = match self.pending_gap {
                        Some(gap) => gap,
                        None => (0, 0),
                    };
                    let highest: u64 = if up_to < evicted.seq { evicted.seq } else { up_to };
                    self.pending_gap = Some((highest, count + 1));
                    assert(self.queue@ =~= old(self).queue@.drop_first());
                },
                None => {},
            }
        }
        self.queue.push_back(CoreEvent { seq, kind, actor_principal });
        assert(self@ =~= old(self)@.published(kind, actor_principal));
        Some(seq)
    }

    /// Looks at the stream once: a gap that is not yet announced comes first, then
    /// the oldest event. A wake is consumed by the look that finds nothing else.
    pub fn poll(&mut self) -> (p: Polled)
        requires
            old(self).wf(),
        ensures
            final(self).wf(),
            final(self)@ == old(self)@.after_look(),
            p == (match old(self)@.readable() {
                Some(event) => Polled::Event(event),
                None => if old(self).woken || old(self).closed {
                    Polled::Nothing
                } else {
                    Polled::Wait
                },
            }),
            match p {
                Polled::Event(e) => {
                    &&& old(self).read_up_to() < e.seq == final(self).read_up_to()
                    &&& match old(self).pending_gap {
                        Some((_, dropped)) => e.seq == old(self).read_up_to() + dropped,
                        None => e.seq == old(self).read_up_to() + 1,
                    }
                },
                _ => final(self).read_up_to() == old(self).read_up_to(),
            },
    {
        if let Some((up_to_seq, dropped)) = self.pending_gap {
            self.pending_gap = None;
            return Polled::Event(
                CoreEvent {
                    seq: up_to_seq,
                    kind: CoreEventKind::Compacted { up_to_seq, dropped },
                    actor_principal: None,
                },
            );
        }
        if let Some(event) = self.queue.pop_front() {
            assert(self.queue@ =~= old(self).queue@.drop_first());
            return Polled::Event(event);
        }
        if self.woken {
            self.woken = false;
            return Polled::Nothing;
        }
        if self.closed {
            return Polled::Nothing;
        }
        Polled::Wait
    }

    /// The next event, if there is one now.
    #[must_use]
    pub fn next_event(&mut self) -> (e: Option<CoreEvent>)
        requires
            old(self).wf(),
        ensures
            final(self).wf(),
            final(self)@ == old(self)@.after_look(),
            e == old(self)@.readable(),
            match e {
                Some(e) => old(self).read_up_to() < e.seq == final(self).read_up_to(),
                None => final(self).read_up_to() == old(self).read_up_to(),
            },
    {
        match self.poll() {
            Polled::Event(event) => Some(event),
            _ => None,
        }
    }

    /// Cancels a wait that is in flight, or the next one.
    pub fn wake(&mut self)
        requires
            old(self).wf(),
        ensures
            final(self).wf(),
            *final(self) == (EventStream { woken: true, ..*old(self) }),
    {
        self.woken = true;
    }

    /// Closes the stream: nothing is published any more, and what is queued can
    /// still be read. Closing again changes nothing.
    pub fn close(&mut self)
        requires
            old(self).wf(),
        ensures
            final(self).wf(),
            *final(self) == (EventStream { closed: true, ..*old(self) }),
    {
        self.closed = true;
    }

    /// The next sequence number the stream will assign: a client that reattaches
    /// offering this value has missed nothing.
    #[must_use]
    pub fn cursor(&self) -> (seq: u64)
        ensures
            seq == self.next_seq,
    {
        self.next_seq
    }

    /// How many events are queued.
    #[must_use]
    pub fn len(&self) -> (n: usize)
        ensures
            n == self.queue@.len(),
    {
        self.queue.len()
    }

    /// Whether nothing is queued.
    #[must_use]
    pub fn is_empty(&self) -> (b: bool)
        ensures
            b == (self.queue@.len() == 0),
    {
        self.queue.len() == 0
    }
}

/// One operation on the stream took its read mark from `before` to `after`, handing
/// out the number `read` if it was a read that found an event.
pub open spec fn moves(before: int, read: Option<u64>, after: int) -> bool {
    match read {
        Some(seq) => before < seq == after,
        None => before == after,
    }
}

/// Over any run of operations, the numbers that are read strictly increase: every
/// number read at a step is above every number read before it.
pub proof fn what_is_read_strictly_increases(
    marks: Seq<int>,
    reads: Seq<Option<u64>>,
    i: int,
    j: int,
)
    requires
        marks.len() == reads.len() + 1,
        forall|k: int|
            0 <= k < reads.len() ==> moves(marks[k], #[trigger] reads[k], marks[k + 1]),
        0 <= i < j < reads.len(),
        reads[i] is Some,
        reads[j] is Some,
    ensures
        reads[i]->0 < reads[j]->0,
    decreases j,
{
    assert(moves(marks[i], reads[i], marks[i + 1]));
    assert(moves(marks[j], reads[j], marks[j + 1]));
    mark_never_falls(marks, reads, i + 1, j);
}

/// How many of these steps read an event.
pub open spec fn reads_in(reads: Seq<Option<u64>>) -> nat
    decreases reads.len(),
{
    if reads.len() == 0 {
        0
    } else {
        reads_in(reads.drop_last()) + (if reads.last() is Some {
            1nat
        } else {
            0nat
        })
    }
}

/// A consumer that sees no marker has missed nothing: over a run in which every read
/// took the number after the last, as every read of an event does, it has read each of
/// the numbers that its mark passed.
pub proof fn without_a_marker_nothing_is_missed(marks: Seq<int>, reads: Seq<Option<u64>>)
    requires
        marks.len() == reads.len() + 1,
        forall|k: int|
            0 <= k < reads.len() ==> moves(marks[k], #[trigger] reads[k], marks[k + 1]),
        forall|k: int|
            0 <= k < reads.len() && (#[trigger] reads[k]) is Some ==> reads[k]->0 == marks[k] + 1,
    ensures
        marks.last() - marks[0] == reads_in(reads),
    decreases reads.len(),
{
    if reads.len() > 0 {
        let fewer = reads.drop_last();
        let earlier = marks.drop_last();
        assert forall|k: int| 0 <= k < fewer.len() implies moves(
            earlier[k],
            #[trigger] fewer[k],
            earlier[k + 1],
        ) by {
            assert(moves(marks[k], reads[k], marks[k + 1]));
        }
        assert forall|k: int| 0 <= k < fewer.len() && (#[trigger] fewer[k]) is Some implies fewer[k]->0
            == earlier[k] + 1 by {
            assert(reads[k] is Some);
        }
        without_a_marker_nothing_is_missed(earlier, fewer);
        let last = reads.len() - 1;
        assert(moves(marks[last], reads[last], marks[last + 1]));
    }
}

proof fn mark_never_falls(marks: Seq<int>, reads: Seq<Option<u64>>, i: int, j: int)
    requires
        marks.len() == reads.len() + 1,
        forall|k: int|
            0 <= k < reads.len() ==> moves(marks[k], #[trigger] reads[k], marks[k + 1]),
        0 <= i <= j <= reads.len(),
    ensures
        marks[i] <= marks[j],
    decreases j - i,
{
    if i < j {
        mark_never_falls(marks, reads, i, j - 1);
        assert(moves(marks[j - 1], reads[j - 1], marks[j]));
    }
}

/// What is done to a stream that is open and that nobody wakes.
pub enum StreamOp {
    /// An event is published.
    Publish(CoreEventKind, Option<String>),
    /// The next event is asked for.
    Look,
}

/// A stream after a run, and the account of the run.
#[verifier::ext_equal]
pub struct Account {
    /// The stream.
    pub stream: StreamModel,
    /// The events that were published, each with the number that it was given.
    pub published: Seq<CoreEvent>,
    /// The events that left the queue, in order; and whether each was read, rather than
    /// dropped.
    pub gone: Seq<(CoreEvent, bool)>,
    /// What the looks found, markers included.
    pub read: Seq<CoreEvent>,
}

/// A stream that nothing happened to.
pub open spec fn fresh_stream(capacity: usize) -> StreamModel {
    StreamModel {
        queue: Seq::empty(),
        next_seq: 1,
        pending_gap: None,
        woken: false,
        closed: false,
        capacity,
    }
}

/// The account of a run on a fresh stream.
pub open spec fn ran(capacity: usize, ops: Seq<StreamOp>) -> Account
    decreases ops.len(),
{
    if ops.len() == 0 {
        Account {
            stream: fresh_stream(capacity),
            published: Seq::empty(),
            gone: Seq::empty(),
            read: Seq::empty(),
        }
    } else {
        let a = ran(capacity, ops.drop_last());
        match ops.last() {
            StreamOp::Publish(kind, actor_principal) => Account {
                stream: a.stream.published(kind, actor_principal),
                published: a.published.push(
                    CoreEvent { seq: a.stream.next_seq, kind, actor_principal },
                ),
                gone: if a.stream.queue.len() >= a.stream.capacity {
                    a.gone.push((a.stream.queue[0], false))
                } else {
                    a.gone
                },
                ..a
            },
            StreamOp::Look => Account {
                stream: a.stream.after_look(),
                gone: if a.stream.pending_gap is None && a.stream.queue.len() > 0 {
                    a.gone.push((a.stream.queue[0], true))
                } else {
                    a.gone
                },
                read: match a.stream.readable() {
                    Some(event) => a.read.push(event),
                    None => a.read,
                },
                ..a
            },
        }
    }
}

/// Those of the events that were handed out that are no markers.
pub open spec fn events_in(read: Seq<CoreEvent>) -> Seq<CoreEvent>
    decreases read.len(),
{
    if read.len() == 0 {
        Seq::empty()
    } else if read.last().kind is Compacted {
        events_in(read.drop_last())
    } else {
        events_in(read.drop_last()).push(read.last())
    }
}

/// How many events the markers that were handed out say were dropped.
pub open spec fn announced(read: Seq<CoreEvent>) -> int
    decreases read.len(),
{
    if read.len() == 0 {
        0
    } else {
        announced(read.drop_last()) + (match read.last().kind {
            CoreEventKind::Compacted { dropped, .. } => dropped as int,
            _ => 0,
        })
    }
}

/// Those of the events that left the queue that were read.
pub open spec fn read_of(gone: Seq<(CoreEvent, bool)>) -> Seq<CoreEvent>
    decreases gone.len(),
{
    if gone.len() == 0 {
        Seq::empty()
    } else if gone.last().1 {
        read_of(gone.drop_last()).push(gone.last().0)
    } else {
        read_of(gone.drop_last())
    }
}

/// How many of the events that left the queue were dropped.
pub open spec fn lost(gone: Seq<(CoreEvent, bool)>) -> int
    decreases gone.len(),
{
    if gone.len() == 0 {
        0
    } else {
        lost(gone.drop_last()) + (if gone.last().1 {
            0int
        } else {
            1int
        })
    }
}

/// The events that left the queue.
pub open spec fn left(gone: Seq<(CoreEvent, bool)>) -> Seq<CoreEvent> {
    gone.map_values(|g: (CoreEvent, bool)| g.0)
}

/// How many dropped events a stream has not announced yet.
pub open spec fn unannounced(stream: StreamModel) -> int {
    match stream.pending_gap {
        Some((_, dropped)) => dropped as int,
        None => 0,
    }
}

/// No run publishes a marker: those are the stream's own.
pub open spec fn no_forged_marker(ops: Seq<StreamOp>) -> bool {
    forall|i: int|
        0 <= i < ops.len() ==> ((#[trigger] ops[i]) matches StreamOp::Publish(kind, _) ==> !(kind
            is Compacted))
}

/// A dropped event is a recorded gap, never a silence. Over any run of a stream: each
/// event that was published is read once, or dropped once, or still queued, in the order
/// in which they were published; what is read is the event itself, with its own number,
/// kind and principal; the markers account for exactly the events that were dropped, up
/// to those that the next look announces; and where nothing was dropped there is no
/// marker.
pub proof fn every_event_is_accounted_for(capacity: usize, ops: Seq<StreamOp>)
    requires
        capacity >= 8,
        ops.len() < u64::MAX,
        no_forged_marker(ops),
    ensures
        ({
            let a = ran(capacity, ops);
            &&& left(a.gone) + a.stream.queue == a.published
            &&& events_in(a.read) == read_of(a.gone)
            &&& announced(a.read) + unannounced(a.stream) == lost(a.gone)
            &&& lost(a.gone) == 0 ==> a.read == events_in(a.read)
            &&& a.stream.next_seq == a.published.len() + 1
            &&& forall|i: int|
                0 <= i < a.published.len() ==> (#[trigger] a.published[i]).seq == i + 1
        }),
{
    the_account_stands(capacity, ops);
}

/// A stream that was read to its end has lost nothing silently: every event that was
/// published was read or dropped, and the markers say how many were dropped.
pub proof fn a_drained_stream_owes_nothing(capacity: usize, ops: Seq<StreamOp>)
    requires
        capacity >= 8,
        ops.len() < u64::MAX,
        no_forged_marker(ops),
        ran(capacity, ops).stream.readable() is None,
    ensures
        ({
            let a = ran(capacity, ops);
            &&& left(a.gone) == a.published
            &&& announced(a.read) == lost(a.gone)
        }),
{
    the_account_stands(capacity, ops);
    let a = ran(capacity, ops);
    assert(left(a.gone) + a.stream.queue =~= left(a.gone));
}

proof fn the_account_stands(capacity: usize, ops: Seq<StreamOp>)
    requires
        capacity >= 8,
        ops.len() < u64::MAX,
        no_forged_marker(ops),
    ensures
        ({
            let a = ran(capacity, ops);
            &&& a.stream.capacity == capacity
            &&& !a.stream.closed
            &&& left(a.gone) + a.stream.queue == a.published
            &&& events_in(a.read) == read_of(a.gone)
            &&& announced(a.read) + unannounced(a.stream) == lost(a.gone)
            &&& 0 <= announced(a.read)
            &&& lost(a.gone) <= a.gone.len() <= a.published.len() <= ops.len()
            &&& lost(a.gone) == 0 ==> a.read == events_in(a.read)
            &&& a.stream.next_seq == a.published.len() + 1
            &&& forall|i: int|
                0 <= i < a.published.len() ==> (#[trigger] a.published[i]).seq == i + 1
            &&& forall|i: int|
                0 <= i < a.published.len() ==> !((#[trigger] a.published[i]).kind is Compacted)
            &&& a.stream.pending_gap matches Some((_, dropped)) ==> dropped > 0
        }),
    decreases ops.len(),
{
    if ops.len() == 0 {
        let a = ran(capacity, ops);
        assert(left(a.gone) + a.stream.queue =~= a.published);
    } else {
        let fewer = ops.drop_last();
        assert forall|i: int| 0 <= i < fewer.len() implies ((#[trigger] fewer[i]) matches
            StreamOp::Publish(kind, _) ==> !(kind is Compacted)) by {
            assert(fewer[i] == ops[i]);
        }
        the_account_stands(capacity, fewer);
        let a = ran(capacity, fewer);
        let b = ran(capacity, ops);
        let queue = a.stream.queue;
        if queue.len() > 0 {
            assert(a.published[a.gone.len() as int] == queue[0]) by {
                assert((left(a.gone) + queue)[a.gone.len() as int] == queue[0]);
            }
        }
        assert(a.published.len() == a.gone.len() + queue.len()) by {
            assert((left(a.gone) + queue).len() == a.gone.len() + queue.len());
        }
        match ops.last() {
            StreamOp::Publish(kind, actor_principal) => {
                assert(ops[ops.len() - 1] == ops.last());
                let event = CoreEvent { seq: a.stream.next_seq, kind, actor_principal };
                if queue.len() >= a.stream.capacity {
                    assert(b.gone.drop_last() =~= a.gone);
                    assert(left(b.gone) =~= left(a.gone).push(queue[0]));
                    assert(left(b.gone) + b.stream.queue =~= (left(a.gone) + queue).push(event));
                    assert(unannounced(b.stream) == unannounced(a.stream) + 1);
                } else {
                    assert(left(b.gone) + b.stream.queue =~= (left(a.gone) + queue).push(event));
                }
            },
            StreamOp::Look => {
                if a.stream.pending_gap is Some {
                    assert(b.read.drop_last() =~= a.read);
                } else if queue.len() > 0 {
                    assert(b.read.drop_last() =~= a.read);
                    assert(b.gone.drop_last() =~= a.gone);
                    assert(left(b.gone) =~= left(a.gone).push(queue[0]));
                    assert(left(b.gone) + b.stream.queue =~= left(a.gone) + queue);
                }
            },
        }
    }
}

} // verus!
