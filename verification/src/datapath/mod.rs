//! The userspace packet path: interface in, tunnel out, and back.
//!
//! [`Pump`] decides each step of one packet's way; the waiting, the sockets and the
//! keys are outside. A step is driven by what came back of the last action, and
//! ends in a [`Step`].

pub mod cancel;
pub mod frame;
pub mod outcome;

use vstd::prelude::*;

use crate::octets;
use crate::types::Endpoint;

use crate::datapath::frame::{
    header_octets, header_of, is_data_frame, mtu_fits, Budget, Buffers, DataHeader, ReceiverIndex,
    HEADER_BYTES, OVERHEAD_BYTES,
};
use crate::datapath::outcome::{
    bumped, capped, Counters, Fault, PlatformError, PlatformKind, Refused, Reject, Report, Step,
    Stop,
};

verus! {

/// How long a direction waits when it has nothing to do, in milliseconds.
pub const IDLE_BACKOFF_MS: u64 = 1;

/// Who carries the packets.
#[derive(Debug, Clone, Copy, PartialEq, Eq, Structural)]
pub enum Datapath {
    /// The core.
    Userspace,
    /// The kernel.
    KernelOffload,
}

/// How the tunnel refused to seal or to open.
#[derive(Debug, Clone, Copy, PartialEq, Eq, Structural)]
#[non_exhaustive]
pub enum TunnelError {
    /// It does not carry traffic.
    NotEstablished,
    /// The send counter of this key generation is used up.
    CounterExhausted,
    /// The negotiation transcript did not match.
    TranscriptMismatch,
    /// The replay window refused the counter.
    Replay,
    /// The record did not authenticate, or could not be sealed.
    Crypto,
    /// Anything else, a lock that was poisoned included.
    Unusable,
}

/// What the tunnel's own refusal stops the pump with.
pub open spec fn stop_of(error: TunnelError) -> Stop {
    match error {
        TunnelError::NotEstablished => Stop::Fault(Fault::NotEstablished),
        TunnelError::CounterExhausted => Stop::RekeyRequired,
        TunnelError::TranscriptMismatch => Stop::Fault(Fault::TranscriptMismatch),
        _ => Stop::Fault(Fault::KeyStateUnusable),
    }
}

/// What the adapter's refusal makes of a step.
pub open spec fn step_of(error: PlatformError) -> Step {
    match error.kind {
        PlatformKind::Cancelled => Step::Stopped(Stop::Cancelled),
        PlatformKind::ShuttingDown => Step::Stopped(Stop::ShuttingDown),
        PlatformKind::Transient => Step::Deferred,
        PlatformKind::Refused => Step::Stopped(Stop::Fault(Fault::Device(error))),
    }
}

fn seal_fault(error: TunnelError) -> (stop: Stop)
    ensures
        stop == stop_of(error),
{
    match error {
        TunnelError::NotEstablished => Stop::Fault(Fault::NotEstablished),
        TunnelError::CounterExhausted => Stop::RekeyRequired,
        TunnelError::TranscriptMismatch => Stop::Fault(Fault::TranscriptMismatch),
        _ => Stop::Fault(Fault::KeyStateUnusable),
    }
}

fn classify_adapter(error: PlatformError) -> (step: Step)
    ensures
        step == step_of(error),
{
    match error.kind {
        PlatformKind::Cancelled => Step::Stopped(Stop::Cancelled),
        PlatformKind::ShuttingDown => Step::Stopped(Stop::ShuttingDown),
        PlatformKind::Transient => Step::Deferred,
        PlatformKind::Refused => Step::Stopped(Stop::Fault(Fault::Device(error))),
    }
}

/// What a pump is built from.
#[derive(Debug, Clone, Copy)]
pub struct PumpParts {
    /// Who carries the packets on this adapter.
    pub datapath: Datapath,
    /// The index a peer stamps on frames addressed to us.
    pub local_receiver: ReceiverIndex,
    /// The index we stamp on frames addressed to the peer.
    pub peer_receiver: ReceiverIndex,
    /// The overlay MTU, which fixes every buffer.
    pub overlay_mtu: u32,
    /// The type octet of a datagram that resumes a session, which is not the data
    /// path's to carry.
    pub resume_type: u8,
}

/// The packet pump of one tunnel, both directions.
#[derive(Debug)]
pub struct Pump {
    /// The index a peer stamps on frames addressed to us.
    pub local_receiver: ReceiverIndex,
    /// The index we stamp on frames addressed to the peer.
    pub peer_receiver: ReceiverIndex,
    /// How large every buffer may be.
    pub budget: Budget,
    /// The type octet of a datagram that resumes a session.
    pub resume_type: u8,
    /// The one datagram that was recognised as a resume and not carried.
    pub resume: Option<Vec<u8>>,
}

/// What the outbound direction waits for.
#[derive(Debug, Clone, Copy, PartialEq, Eq, Structural)]
pub enum OutStage {
    /// Nothing was asked.
    Start,
    /// A packet, from the interface.
    Reading,
    /// The sealing of a packet of this length.
    Sealing(usize),
    /// The sending of a packet of this length.
    Sending(usize),
}

/// What came back to the outbound direction.
#[derive(Debug)]
pub enum OutEvent {
    /// A step begins; whether a stop was requested.
    Begin {
        /// A stop was requested.
        cancelled: bool,
    },
    /// A stop was requested while the interface was read.
    ReadCancelled,
    /// The interface was read: this many octets.
    Read(Result<usize, PlatformError>),
    /// The tunnel has no authoritative endpoint.
    NoEndpoint,
    /// The packet was sealed, for the authoritative endpoint.
    Sealed {
        /// Where bulk traffic goes.
        destination: Endpoint,
        /// The counter that was used.
        counter: u64,
        /// The sealed record.
        record: Vec<u8>,
    },
    /// The packet was not sealed.
    SealFailed(TunnelError),
    /// The datagram was sent.
    Sent(Result<(), PlatformError>),
}

/// What the outbound direction does next.
#[derive(Debug)]
pub enum OutAction {
    /// Read a packet of at most this many octets from the interface, giving up when
    /// a stop is requested.
    Read {
        /// The capacity.
        capacity: usize,
    },
    /// Look up the authoritative endpoint and seal this many octets.
    Seal {
        /// The length of the packet.
        length: usize,
    },
    /// Send the datagram.
    Send {
        /// Where to.
        destination: Endpoint,
        /// The datagram.
        wire: Vec<u8>,
    },
    /// The step is over.
    Done(Step),
}

/// The event answers what the stage waits for.
pub open spec fn out_fits(stage: OutStage, event: OutEvent) -> bool {
    match stage {
        OutStage::Start => event is Begin,
        OutStage::Reading => event is ReadCancelled || event is Read,
        OutStage::Sealing(_) => event is NoEndpoint || event is Sealed || event is SealFailed,
        OutStage::Sending(_) => event is Sent,
    }
}

/// What the inbound direction waits for.
#[derive(Debug, Clone, Copy, PartialEq, Eq, Structural)]
pub enum InStage {
    /// Nothing was asked.
    Start,
    /// A datagram.
    Receiving,
    /// The reading of a resume.
    Resuming,
    /// The opening of a record.
    Opening,
    /// The writing of a packet of this length.
    Writing(usize),
}

/// What came back to the inbound direction.
#[derive(Debug)]
pub enum InEvent {
    /// A step begins; whether a stop was requested.
    Begin {
        /// A stop was requested.
        cancelled: bool,
    },
    /// A stop was requested while the socket was read.
    ReceiveCancelled,
    /// The socket failed.
    ReceiveFailed(PlatformError),
    /// A datagram arrived.
    Received {
        /// The length the adapter reports.
        len: usize,
        /// The adapter reports that it did not fit.
        truncated: bool,
        /// The receive buffer.
        wire: Vec<u8>,
    },
    /// The resume was read: whom it is addressed to and what it carries, if it is
    /// one.
    ResumeRead(Option<(ReceiverIndex, Vec<u8>)>),
    /// The record was opened: the length of the packet.
    Opened(Result<usize, TunnelError>),
    /// The packet was written to the interface.
    Written(Result<(), PlatformError>),
}

/// What the inbound direction does next.
#[derive(Debug)]
pub enum InAction {
    /// Receive a datagram of at most this many octets, giving up when a stop is
    /// requested.
    Receive {
        /// The capacity.
        capacity: usize,
    },
    /// Read a resume off the first `len` octets of the buffer.
    ReadResume {
        /// The length of the datagram.
        len: usize,
    },
    /// Open the record that stands in the buffer between these positions.
    Open {
        /// The counter that the frame carries.
        counter: u64,
        /// Where the record starts.
        start: usize,
        /// Where the record ends.
        end: usize,
    },
    /// Write the packet of this length to the interface.
    Write {
        /// The length of the packet.
        length: usize,
    },
    /// The step is over.
    Done(Step),
}

/// The event answers what the stage waits for. A receive buffer is as long as the
/// capacity that was asked for.
pub open spec fn in_fits(budget: Budget, stage: InStage, event: InEvent) -> bool {
    match stage {
        InStage::Start => event is Begin,
        InStage::Receiving => event is ReceiveCancelled || event is ReceiveFailed || (
        event matches InEvent::Received { wire, .. } && wire@.len() == budget.plaintext
            + OVERHEAD_BYTES),
        InStage::Resuming => event is ResumeRead,
        InStage::Opening => event is Opened,
        InStage::Writing(_) => event is Written,
    }
}

/// What an inbound step does about a datagram of `len` octets in the buffer `wire`.
pub open spec fn on_datagram(p: Pump, len: usize, truncated: bool, wire: Seq<u8>) -> (
    InStage,
    InAction,
) {
    if truncated {
        (InStage::Start, InAction::Done(Step::Rejected(Reject::Truncated)))
    } else if len > p.budget.plaintext + OVERHEAD_BYTES {
        (InStage::Start, InAction::Done(Step::Rejected(Reject::Oversize)))
    } else if wire[0] == p.resume_type {
        (InStage::Resuming, InAction::ReadResume { len })
    } else if !is_data_frame(wire.take(len as int)) {
        (InStage::Start, InAction::Done(Step::Rejected(Reject::Malformed)))
    } else if header_of(wire.take(len as int)).receiver != p.local_receiver {
        (InStage::Start, InAction::Done(Step::Rejected(Reject::ForeignReceiver)))
    } else {
        (
            InStage::Opening,
            InAction::Open {
                counter: header_of(wire.take(len as int)).counter,
                start: HEADER_BYTES,
                end: len,
            },
        )
    }
}

/// What an inbound step does about the answer to an opening.
pub open spec fn on_opened(p: Pump, opened: Result<usize, TunnelError>) -> (InStage, InAction) {
    match opened {
        Err(TunnelError::Replay) => (
            InStage::Start,
            InAction::Done(Step::Rejected(Reject::Replay)),
        ),
        Err(TunnelError::Crypto) => (
            InStage::Start,
            InAction::Done(Step::Rejected(Reject::Unauthenticated)),
        ),
        Err(error) => (InStage::Start, InAction::Done(Step::Stopped(stop_of(error)))),
        Ok(length) => if length > p.budget.plaintext {
            (InStage::Start, InAction::Done(Step::Rejected(Reject::Oversize)))
        } else {
            (InStage::Writing(length), InAction::Write { length })
        },
    }
}

/// What an inbound step does about a resume that was read.
pub open spec fn on_resume(p: Pump, read: Option<(ReceiverIndex, Vec<u8>)>) -> Step {
    match read {
        None => Step::Rejected(Reject::Malformed),
        Some((receiver, _)) => if receiver != p.local_receiver {
            Step::Rejected(Reject::ForeignReceiver)
        } else {
            Step::Diverted
        },
    }
}

/// What follows a step of the loop.
#[derive(Debug, Clone, Copy, PartialEq, Eq)]
pub enum Absorbed {
    /// The next step.
    Continue,
    /// One idle interval, given up when a stop is requested, and then the next step.
    Wait,
    /// The loop ends.
    End(Report),
}

/// The counters after a step.
pub open spec fn counted(c: Counters, step: Step) -> Counters {
    match step {
        Step::Moved(bytes) => Counters {
            packets: bumped(c.packets),
            bytes: capped(c.bytes + bytes),
            ..c
        },
        Step::Diverted => Counters { diverted: bumped(c.diverted), ..c },
        Step::Rejected(reject) => c.after_reject(reject),
        Step::Idle => Counters { idle_waits: bumped(c.idle_waits), ..c },
        Step::Deferred => Counters {
            adapter_transient: bumped(c.adapter_transient),
            idle_waits: bumped(c.idle_waits),
            ..c
        },
        Step::Stopped(_) => c,
    }
}

/// What follows a step, of a loop that had counted this.
pub open spec fn follows(c: Counters, step: Step) -> Absorbed {
    match step {
        Step::Moved(_) | Step::Diverted | Step::Rejected(_) => Absorbed::Continue,
        Step::Idle | Step::Deferred => Absorbed::Wait,
        Step::Stopped(stop) => Absorbed::End(Report { stop, counters: c }),
    }
}

/// One decision of the outbound direction.
pub open spec fn steps_out(
    p: Pump,
    stage: OutStage,
    event: OutEvent,
    r: (OutStage, OutAction),
) -> bool {
    match event {
        OutEvent::Begin { cancelled } => if cancelled {
            r == (OutStage::Start, OutAction::Done(Step::Stopped(Stop::Cancelled)))
        } else {
            r == (OutStage::Reading, OutAction::Read { capacity: p.budget.plaintext })
        },
        OutEvent::ReadCancelled => r == (
            OutStage::Start,
            OutAction::Done(Step::Stopped(Stop::Cancelled)),
        ),
        OutEvent::Read(Err(error)) => r == (
            OutStage::Start,
            OutAction::Done(step_of(error)),
        ),
        OutEvent::Read(Ok(length)) => r == (if length == 0 {
            (OutStage::Start, OutAction::Done(Step::Idle))
        } else if length > p.budget.plaintext {
            (OutStage::Start, OutAction::Done(Step::Rejected(Reject::Truncated)))
        } else {
            (OutStage::Sealing(length), OutAction::Seal { length })
        }),
        OutEvent::NoEndpoint => r == (
            OutStage::Start,
            OutAction::Done(Step::Stopped(Stop::Fault(Fault::NoAuthoritativeEndpoint))),
        ),
        OutEvent::SealFailed(error) => r == (
            OutStage::Start,
            OutAction::Done(Step::Stopped(stop_of(error))),
        ),
        OutEvent::Sealed { destination, counter, record } => {
            &&& r.0 == OutStage::Sending(stage->Sealing_0)
            &&& r.1 matches OutAction::Send { destination: to, wire }
            &&& to == destination
            &&& wire@ == header_octets(
                DataHeader { receiver: p.peer_receiver, counter },
            ) + record@
        },
        OutEvent::Sent(Ok(())) => r == (
            OutStage::Start,
            OutAction::Done(Step::Moved(stage->Sending_0)),
        ),
        OutEvent::Sent(Err(error)) => r == (
            OutStage::Start,
            OutAction::Done(step_of(error)),
        ),
    }
}

/// One decision of the inbound direction.
pub open spec fn steps_in(
    p: Pump,
    stage: InStage,
    event: InEvent,
    after: Pump,
    r: (InStage, InAction),
) -> bool {
    &&& after == (Pump { resume: after.resume, ..p })
    &&& match event {
        InEvent::ResumeRead(Some((receiver, payload))) => after.resume == (
        if receiver == p.local_receiver {
            Some(payload)
        } else {
            p.resume
        }),
        _ => after.resume == p.resume,
    }
    &&& r == (match event {
        InEvent::Begin { cancelled } => if cancelled {
            (InStage::Start, InAction::Done(Step::Stopped(Stop::Cancelled)))
        } else {
            (
                InStage::Receiving,
                InAction::Receive {
                    capacity: (p.budget.plaintext + OVERHEAD_BYTES) as usize,
                },
            )
        },
        InEvent::ReceiveCancelled => (
            InStage::Start,
            InAction::Done(Step::Stopped(Stop::Cancelled)),
        ),
        InEvent::ReceiveFailed(error) => (InStage::Start, InAction::Done(step_of(error))),
        InEvent::Received { len, truncated, wire } => on_datagram(
            p,
            len,
            truncated,
            wire@,
        ),
        InEvent::ResumeRead(read) => (
            InStage::Start,
            InAction::Done(on_resume(p, read)),
        ),
        InEvent::Opened(opened) => on_opened(p, opened),
        InEvent::Written(Ok(())) => (
            InStage::Start,
            InAction::Done(Step::Moved(stage->Writing_0)),
        ),
        InEvent::Written(Err(error)) => (InStage::Start, InAction::Done(step_of(error))),
    })
}

/// The pump that is built, or why none is.
pub open spec fn pump_built(parts: PumpParts, r: Result<Pump, Refused>) -> bool {
    match r {
        Ok(pump) => {
            &&& parts.datapath == Datapath::Userspace
            &&& mtu_fits(parts.overlay_mtu)
            &&& pump.wf()
            &&& pump == (Pump {
                local_receiver: parts.local_receiver,
                peer_receiver: parts.peer_receiver,
                budget: Budget {
                    overlay_mtu: parts.overlay_mtu,
                    plaintext: parts.overlay_mtu as usize,
                },
                resume_type: parts.resume_type,
                resume: None,
            })
        },
        Err(e) => e == (if parts.datapath != Datapath::Userspace {
            Refused::KernelOffload
        } else if parts.overlay_mtu < frame::OVERLAY_MTU_FLOOR {
            Refused::MtuBelowFloor { mtu: parts.overlay_mtu }
        } else {
            Refused::MtuAboveCeiling { mtu: parts.overlay_mtu }
        }) && (parts.datapath == Datapath::Userspace ==> !mtu_fits(parts.overlay_mtu)),
    }
}

impl Pump {
    /// The budget is one.
    pub open spec fn wf(self) -> bool {
        self.budget.wf()
    }

    /// Builds a pump, or refuses, before anything was asked of the adapter.
    pub fn new(parts: PumpParts) -> (r: Result<Self, Refused>)
        ensures
            pump_built(parts, r),
    {
        if !matches!(parts.datapath, Datapath::Userspace) {
            return Err(Refused::KernelOffload);
        }
        let budget = match Budget::new(parts.overlay_mtu) {
            Ok(budget) => budget,
            Err(refused) => {
                return Err(refused);
            },
        };
        Ok(
            Pump {
                local_receiver: parts.local_receiver,
                peer_receiver: parts.peer_receiver,
                budget,
                resume_type: parts.resume_type,
                resume: None,
            },
        )
    }

    /// Takes the resume that was set aside, if any: it is delivered once.
    #[must_use]
    pub fn take_resume(&mut self) -> (taken: Option<Vec<u8>>)
        ensures
            taken == old(self).resume,
            *final(self) == (Pump { resume: None, ..*old(self) }),
    {
        self.resume.take()
    }

    /// How large every buffer may be.
    #[must_use]
    pub fn budget(&self) -> (b: Budget)
        ensures
            b == self.budget,
    {
        self.budget
    }

    /// Buffers sized for this pump.
    #[must_use]
    pub fn buffers(&self) -> (b: Buffers)
        requires
            self.wf(),
        ensures
            b.budget == self.budget,
            b.packet@.len() == self.budget.plaintext,
            b.wire@.len() == self.budget.plaintext + OVERHEAD_BYTES,
    {
        Buffers::new(self.budget)
    }

    /// One decision of the outbound direction. Once a packet was sealed the step
    /// finishes: a stop is honoured where the waiting is, at the read.
    pub fn step_outbound(&self, stage: OutStage, event: OutEvent) -> (r: (OutStage, OutAction))
        requires
            self.wf(),
            out_fits(stage, event),
        ensures
            steps_out(*self, stage, event, r),
    {
        match event {
            OutEvent::Begin { cancelled } => {
                if cancelled {
                    (OutStage::Start, OutAction::Done(Step::Stopped(Stop::Cancelled)))
                } else {
                    let capacity: usize = self.budget.plaintext_capacity();
                    (OutStage::Reading, OutAction::Read { capacity })
                }
            },
            OutEvent::ReadCancelled => (
                OutStage::Start,
                OutAction::Done(Step::Stopped(Stop::Cancelled)),
            ),
            OutEvent::Read(Err(error)) => (
                OutStage::Start,
                OutAction::Done(classify_adapter(error)),
            ),
            OutEvent::Read(Ok(length)) => {
                if length == 0 {
                    (OutStage::Start, OutAction::Done(Step::Idle))
                } else if length > self.budget.plaintext_capacity() {
                    (OutStage::Start, OutAction::Done(Step::Rejected(Reject::Truncated)))
                } else {
                    (OutStage::Sealing(length), OutAction::Seal { length })
                }
            },
            OutEvent::NoEndpoint => (
                OutStage::Start,
                OutAction::Done(Step::Stopped(Stop::Fault(Fault::NoAuthoritativeEndpoint))),
            ),
            OutEvent::SealFailed(error) => (
                OutStage::Start,
                OutAction::Done(Step::Stopped(seal_fault(error))),
            ),
            OutEvent::Sealed { destination, counter, record } => {
                let length: usize = match stage {
                    OutStage::Sealing(length) => length,
                    _ => 0,
                };
                let mut wire: Vec<u8> = Vec::new();
                let header = DataHeader { receiver: self.peer_receiver, counter };
                header.write(&mut wire);
                octets::put_slice(&mut wire, record.as_slice());
                assert(wire@ =~= header_octets(header) + record@);
                (OutStage::Sending(length), OutAction::Send { destination, wire })
            },
            OutEvent::Sent(Ok(())) => {
                let length: usize = match stage {
                    OutStage::Sending(length) => length,
                    _ => 0,
                };
                (OutStage::Start, OutAction::Done(Step::Moved(length)))
            },
            OutEvent::Sent(Err(error)) => (
                OutStage::Start,
                OutAction::Done(classify_adapter(error)),
            ),
        }
    }

    /// One decision of the inbound direction. The source of a frame is not looked
    /// at: one that authenticates is ours wherever it came from. Only a resume that
    /// is addressed to this tunnel changes the pump, and it replaces one that was
    /// set aside before.
    pub fn step_inbound(&mut self, stage: InStage, event: InEvent) -> (r: (InStage, InAction))
        requires
            old(self).wf(),
            in_fits(old(self).budget, stage, event),
        ensures
            final(self).wf(),
            steps_in(*old(self), stage, event, *final(self), r),
    {
        match event {
            InEvent::Begin { cancelled } => {
                if cancelled {
                    (InStage::Start, InAction::Done(Step::Stopped(Stop::Cancelled)))
                } else {
                    let capacity: usize = self.budget.datagram_capacity();
                    (InStage::Receiving, InAction::Receive { capacity })
                }
            },
            InEvent::ReceiveCancelled => (
                InStage::Start,
                InAction::Done(Step::Stopped(Stop::Cancelled)),
            ),
            InEvent::ReceiveFailed(error) => (
                InStage::Start,
                InAction::Done(classify_adapter(error)),
            ),
            InEvent::Received { len, truncated, wire } => {
                if truncated {
                    return (InStage::Start, InAction::Done(Step::Rejected(Reject::Truncated)));
                }
                if len > self.budget.datagram_capacity() {
                    return (InStage::Start, InAction::Done(Step::Rejected(Reject::Oversize)));
                }
                if wire[0] == self.resume_type {
                    return (InStage::Resuming, InAction::ReadResume { len });
                }
                let datagram = &wire.as_slice()[0..len];
                assert(datagram@ =~= wire@.take(len as int));
                match DataHeader::parse(datagram) {
                    Err(reject) => (InStage::Start, InAction::Done(Step::Rejected(reject))),
                    Ok((header, _record)) => {
                        if header.receiver != self.local_receiver {
                            (InStage::Start, InAction::Done(Step::Rejected(Reject::ForeignReceiver)))
                        } else {
                            (
                                InStage::Opening,
                                InAction::Open {
                                    counter: header.counter,
                                    start: HEADER_BYTES,
                                    end: len,
                                },
                            )
                        }
                    },
                }
            },
            InEvent::ResumeRead(read) => {
                let step = self.divert_resume(read);
                (InStage::Start, InAction::Done(step))
            },
            InEvent::Opened(opened) => {
                match opened {
                    Err(TunnelError::Replay) => (
                        InStage::Start,
                        InAction::Done(Step::Rejected(Reject::Replay)),
                    ),
                    Err(TunnelError::Crypto) => (
                        InStage::Start,
                        InAction::Done(Step::Rejected(Reject::Unauthenticated)),
                    ),
                    Err(error) => (
                        InStage::Start,
                        InAction::Done(Step::Stopped(seal_fault(error))),
                    ),
                    Ok(length) => {
                        if length > self.budget.plaintext_capacity() {
                            (InStage::Start, InAction::Done(Step::Rejected(Reject::Oversize)))
                        } else {
                            (InStage::Writing(length), InAction::Write { length })
                        }
                    },
                }
            },
            InEvent::Written(Ok(())) => {
                let length: usize = match stage {
                    InStage::Writing(length) => length,
                    _ => 0,
                };
                (InStage::Start, InAction::Done(Step::Moved(length)))
            },
            InEvent::Written(Err(error)) => (
                InStage::Start,
                InAction::Done(classify_adapter(error)),
            ),
        }
    }

    /// Sets a resume that was read aside, when it is addressed to this tunnel. None
    /// of it is authenticated here.
    fn divert_resume(&mut self, read: Option<(ReceiverIndex, Vec<u8>)>) -> (step: Step)
        ensures
            *final(self) == (Pump { resume: final(self).resume, ..*old(self) }),
            step == on_resume(*old(self), read),
            match read {
                Some((receiver, payload)) => final(self).resume == (if receiver == old(
                    self,
                ).local_receiver {
                    Some(payload)
                } else {
                    old(self).resume
                }),
                None => final(self).resume == old(self).resume,
            },
    {
        match read {
            None => Step::Rejected(Reject::Malformed),
            Some((receiver, payload)) => {
                if receiver != self.local_receiver {
                    return Step::Rejected(Reject::ForeignReceiver);
                }
                self.resume = Some(payload);
                Step::Diverted
            },
        }
    }

    /// Folds one step into the counters. Only a stop ends the loop.
    pub fn absorb(step: Step, counters: &mut Counters) -> (next: Absorbed)
        ensures
            *final(counters) == counted(*old(counters), step),
            next == follows(*old(counters), step),
    {
        match step {
            Step::Moved(bytes) => {
                counters.record_moved(bytes);
                Absorbed::Continue
            },
            Step::Diverted => {
                counters.record_diverted();
                Absorbed::Continue
            },
            Step::Rejected(reject) => {
                counters.record(reject);
                Absorbed::Continue
            },
            Step::Idle => {
                counters.idle_waits = counters.idle_waits.saturating_add(1);
                Absorbed::Wait
            },
            Step::Deferred => {
                counters.adapter_transient = counters.adapter_transient.saturating_add(1);
                counters.idle_waits = counters.idle_waits.saturating_add(1);
                Absorbed::Wait
            },
            Step::Stopped(stop) => Absorbed::End(Report { stop, counters: *counters }),
        }
    }

    /// Takes how an idle interval ended: a stop that was requested ends the loop.
    #[must_use]
    pub fn waited(completed: bool, counters: &Counters) -> (next: Absorbed)
        ensures
            next == (if completed {
                Absorbed::Continue
            } else {
                Absorbed::End(Report { stop: Stop::Cancelled, counters: *counters })
            }),
    {
        if completed {
            Absorbed::Continue
        } else {
            Absorbed::End(Report { stop: Stop::Cancelled, counters: *counters })
        }
    }
}

/// No datagram that a peer sends ends the loop: whatever arrived, whatever a resume
/// says, and whether a record is a replay or a forgery, the step is not a stop.
pub proof fn no_datagram_stops_the_pump(
    p: Pump,
    len: usize,
    truncated: bool,
    wire: Seq<u8>,
    read: Option<(ReceiverIndex, Vec<u8>)>,
    opened: Result<usize, TunnelError>,
)
    requires
        opened is Ok || opened == Err::<usize, TunnelError>(TunnelError::Replay) || opened == Err::<
            usize,
            TunnelError,
        >(TunnelError::Crypto),
    ensures
        !(on_datagram(p, len, truncated, wire).1 matches InAction::Done(Step::Stopped(_))),
        !(on_resume(p, read) is Stopped),
        !(on_opened(p, opened).1 matches InAction::Done(Step::Stopped(_))),
{
}

/// A record that is opened lies within the datagram, behind its header.
pub proof fn an_opened_record_lies_in_the_datagram(
    p: Pump,
    len: usize,
    truncated: bool,
    wire: Seq<u8>,
)
    requires
        wire.len() == p.budget.plaintext + OVERHEAD_BYTES,
    ensures
        on_datagram(p, len, truncated, wire).1 matches InAction::Open { start, end, .. }
            ==> HEADER_BYTES == start < end == len <= wire.len(),
{
}

/// What one side sends, the other side's pump opens: same record, same counter.
pub proof fn a_sent_frame_is_opened_by_its_receiver(
    receiver: Pump,
    counter: u64,
    record: Seq<u8>,
    rest: Seq<u8>,
)
    requires
        receiver.wf(),
        frame::TAG_BYTES <= record.len() <= receiver.budget.plaintext + frame::TAG_BYTES,
        receiver.resume_type != frame::TYPE_TRANSPORT_DATA,
        HEADER_BYTES + record.len() + rest.len() == receiver.budget.plaintext + OVERHEAD_BYTES,
    ensures
        ({
            let sent = header_octets(DataHeader { receiver: receiver.local_receiver, counter })
                + record;
            let wire = sent + rest;
            &&& on_datagram(receiver, sent.len() as usize, false, wire).1 == (InAction::Open {
                counter,
                start: HEADER_BYTES,
                end: sent.len() as usize,
            })
            &&& wire.subrange(HEADER_BYTES as int, sent.len() as int) == record
        }),
{
    let h = DataHeader { receiver: receiver.local_receiver, counter };
    let sent = header_octets(h) + record;
    let wire = sent + rest;
    frame::a_header_round_trips(h, record);
    octets::le32_round_trip(h.receiver.0);
    octets::le64_round_trip(h.counter);
    assert(wire.take(sent.len() as int) =~= sent);
    assert(wire.subrange(HEADER_BYTES as int, sent.len() as int) =~= record);
    assert(wire[0] == frame::TYPE_TRANSPORT_DATA);
}

} // verus!
