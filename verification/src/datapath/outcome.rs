//! What the pump does about each thing that can go wrong.
//!
//! A [`Reject`] is something an untrusted peer did to one datagram: it is counted,
//! the datagram is discarded and the pump keeps running. A [`Fault`] is something
//! about our own state, which nothing a peer sends can produce, so stopping on one
//! is safe. One injected datagram must not tear a tunnel down.

use vstd::prelude::*;

use crate::reason::{Component, Diagnostic, Evidence, ReasonCode};

verus! {

/// How the platform adapter refused.
#[derive(Debug, Clone, Copy, PartialEq, Eq, Structural)]
pub enum PlatformKind {
    /// The call was cancelled.
    Cancelled,
    /// The adapter accepts no new work.
    ShuttingDown,
    /// The same call may succeed later.
    Transient,
    /// Anything else.
    Refused,
}

/// A refusal of the platform adapter, with the registered code it maps to.
#[derive(Debug, Clone, Copy, PartialEq, Eq)]
pub struct PlatformError {
    /// How it refused.
    pub kind: PlatformKind,
    /// The code.
    pub code: ReasonCode,
    /// The adapter's own evidence.
    pub evidence: Evidence,
}

/// Why a pump refused to start.
#[derive(Debug, Clone, Copy, PartialEq, Eq, Structural)]
#[non_exhaustive]
pub enum Refused {
    /// The kernel carries the packets, and the core must not.
    KernelOffload,
    /// The overlay MTU is below the floor.
    MtuBelowFloor {
        /// The refused MTU.
        mtu: u32,
    },
    /// The overlay MTU exceeds what a datagram can carry.
    MtuAboveCeiling {
        /// The refused MTU.
        mtu: u32,
    },
}

impl Refused {
    /// The registered code.
    pub open spec fn code(self) -> ReasonCode {
        match self {
            Refused::KernelOffload => ReasonCode::PlatformOsUnsupported,
            Refused::MtuBelowFloor { .. } => ReasonCode::NetMtuTooSmall,
            Refused::MtuAboveCeiling { .. } => ReasonCode::ProtoSizeExceeded,
        }
    }

    /// The registered code.
    #[must_use]
    pub fn reason_code(self) -> (c: ReasonCode)
        ensures
            c == self.code(),
    {
        match self {
            Refused::KernelOffload => ReasonCode::PlatformOsUnsupported,
            Refused::MtuBelowFloor { .. } => ReasonCode::NetMtuTooSmall,
            Refused::MtuAboveCeiling { .. } => ReasonCode::ProtoSizeExceeded,
        }
    }

    /// The registered diagnostic.
    #[must_use]
    pub fn diagnostic(self) -> (d: Diagnostic)
        ensures
            d == Diagnostic::plain(self.code(), Component::TunnelEngine),
    {
        Diagnostic::new(self.reason_code(), Component::TunnelEngine)
    }
}

/// One datagram or one packet, discarded. Never a session teardown.
#[derive(Debug, Clone, Copy, PartialEq, Eq, Structural)]
#[non_exhaustive]
pub enum Reject {
    /// Not a transport-data frame.
    Malformed,
    /// Addressed to another tunnel.
    ForeignReceiver,
    /// Larger than the budget allows.
    Oversize,
    /// The adapter reported that it did not fit.
    Truncated,
    /// It did not authenticate: a silent, counted drop.
    Unauthenticated,
    /// The replay window refused its counter.
    Replay,
}

impl Reject {
    /// The registered code, where one exists.
    pub open spec fn code(self) -> Option<ReasonCode> {
        match self {
            Reject::Malformed | Reject::ForeignReceiver => Some(
                ReasonCode::ProtoUnparseableEnvelope,
            ),
            Reject::Oversize | Reject::Truncated => Some(ReasonCode::ProtoSizeExceeded),
            Reject::Unauthenticated => None,
            Reject::Replay => Some(ReasonCode::CryptoReplayDetected),
        }
    }

    /// The registered code, where one exists: an answer that told a forger apart
    /// would be an oracle, so a datagram that does not authenticate has none.
    #[must_use]
    pub fn reason_code(self) -> (c: Option<ReasonCode>)
        ensures
            c == self.code(),
            c is None <==> self == Reject::Unauthenticated,
    {
        match self {
            Reject::Malformed | Reject::ForeignReceiver => Some(
                ReasonCode::ProtoUnparseableEnvelope,
            ),
            Reject::Oversize | Reject::Truncated => Some(ReasonCode::ProtoSizeExceeded),
            Reject::Unauthenticated => None,
            Reject::Replay => Some(ReasonCode::CryptoReplayDetected),
        }
    }

    /// Whether this reject ends the session. Never.
    #[must_use]
    pub fn tears_down(self) -> (b: bool)
        ensures
            !b,
    {
        false
    }

    /// Whether it is surfaced as a security event, rather than only counted.
    #[must_use]
    pub fn is_security_event(self) -> (b: bool)
        ensures
            b == (self == Reject::Replay),
    {
        matches!(self, Reject::Replay)
    }

    /// The registered diagnostic, where a code exists.
    #[must_use]
    pub fn diagnostic(self) -> (d: Option<Diagnostic>)
        ensures
            d == (match self.code() {
                Some(code) => Some(Diagnostic::plain(code, Component::TunnelEngine)),
                None => None,
            }),
    {
        match self.reason_code() {
            Some(code) => Some(Diagnostic::new(code, Component::TunnelEngine)),
            None => None,
        }
    }
}

/// Something about our own state that the pump cannot continue past.
#[derive(Debug, Clone, Copy, PartialEq, Eq)]
#[non_exhaustive]
pub enum Fault {
    /// The tunnel does not carry traffic.
    NotEstablished,
    /// The tunnel has no authoritative endpoint to send to.
    NoAuthoritativeEndpoint,
    /// The tunnel's own key state is unusable.
    KeyStateUnusable,
    /// The negotiation transcript did not match.
    TranscriptMismatch,
    /// The adapter refused in a way that cannot be retried.
    Device(PlatformError),
}

impl Fault {
    /// The registered code.
    pub open spec fn code(self) -> ReasonCode {
        match self {
            Fault::NotEstablished
            | Fault::NoAuthoritativeEndpoint => ReasonCode::InternalUnexpectedState,
            Fault::KeyStateUnusable => ReasonCode::InternalInvariantViolated,
            Fault::TranscriptMismatch => ReasonCode::ProtoTranscriptMismatch,
            Fault::Device(error) => error.code,
        }
    }

    /// The registered code; the adapter owns the mapping of its own errors.
    #[must_use]
    pub fn reason_code(&self) -> (c: ReasonCode)
        ensures
            c == self.code(),
    {
        match self {
            Fault::NotEstablished
            | Fault::NoAuthoritativeEndpoint => ReasonCode::InternalUnexpectedState,
            Fault::KeyStateUnusable => ReasonCode::InternalInvariantViolated,
            Fault::TranscriptMismatch => ReasonCode::ProtoTranscriptMismatch,
            Fault::Device(error) => error.code,
        }
    }

    /// The registered diagnostic, with the adapter's own evidence where the fault came
    /// from the adapter.
    #[must_use]
    pub fn diagnostic(&self) -> (d: Diagnostic)
        ensures
            d == (Diagnostic {
                code: self.code(),
                component: Component::TunnelEngine,
                evidence: match *self {
                    Fault::Device(error) => error.evidence,
                    _ => Evidence::Nothing,
                },
            }),
    {
        match self {
            Fault::Device(error) => Diagnostic {
                code: error.code,
                component: Component::TunnelEngine,
                evidence: error.evidence,
            },
            other => Diagnostic::new(other.reason_code(), Component::TunnelEngine),
        }
    }
}

/// Why a pump loop returned.
#[derive(Debug, Clone, Copy, PartialEq, Eq)]
#[non_exhaustive]
pub enum Stop {
    /// It was asked to.
    Cancelled,
    /// The adapter accepts no new work.
    ShuttingDown,
    /// The send counter of this key generation is used up: a rekey is owed, and
    /// nothing has failed.
    RekeyRequired,
    /// Something about our own state stopped it.
    Fault(Fault),
}

impl Stop {
    /// The registered code, where one exists.
    #[must_use]
    pub fn reason_code(&self) -> (c: Option<ReasonCode>)
        ensures
            c == (match *self {
                Stop::Fault(fault) => Some(fault.code()),
                _ => None,
            }),
    {
        match self {
            Stop::Cancelled | Stop::ShuttingDown | Stop::RekeyRequired => None,
            Stop::Fault(fault) => Some(fault.reason_code()),
        }
    }

    /// Whether the pump stopped because it was asked to.
    #[must_use]
    pub fn is_graceful(&self) -> (b: bool)
        ensures
            b == (*self is Cancelled || *self is ShuttingDown),
    {
        matches!(self, Stop::Cancelled | Stop::ShuttingDown)
    }
}

/// What one pump step did.
#[derive(Debug, Clone, Copy, PartialEq, Eq)]
#[non_exhaustive]
pub enum Step {
    /// One packet crossed, of this many plaintext octets.
    Moved(usize),
    /// Nothing was available.
    Idle,
    /// The adapter refused in a way that can be retried.
    Deferred,
    /// One datagram was handed to the component that owns it.
    Diverted,
    /// One datagram was discarded. The pump continues.
    Rejected(Reject),
    /// The loop ends.
    Stopped(Stop),
}

/// What one pump direction counted: numbers only, never a payload octet, an address
/// or a key.
#[derive(Debug, Clone, Copy, PartialEq, Eq, Structural)]
pub struct Counters {
    /// Packets carried.
    pub packets: u64,
    /// Plaintext octets carried.
    pub bytes: u64,
    /// Times there was nothing to do.
    pub idle_waits: u64,
    /// Datagrams that were not transport-data frames.
    pub rejected_malformed: u64,
    /// Frames addressed to another tunnel.
    pub rejected_foreign_receiver: u64,
    /// Datagrams refused by the budget, truncation included.
    pub rejected_oversize: u64,
    /// Datagrams that did not authenticate.
    pub rejected_unauthenticated: u64,
    /// Frames the replay window refused.
    pub rejected_replay: u64,
    /// Refusals of the adapter that can be retried.
    pub adapter_transient: u64,
    /// Datagrams handed to another component. They were not discarded.
    pub diverted: u64,
}

/// One more, up to the largest number there is.
pub open spec fn bumped(n: u64) -> u64 {
    if n == u64::MAX {
        n
    } else {
        (n + 1) as u64
    }
}

/// A sum, up to the largest number there is.
pub open spec fn capped(n: int) -> u64 {
    if n > u64::MAX {
        u64::MAX
    } else {
        n as u64
    }
}

impl Counters {
    /// Nothing was counted.
    pub open spec fn zero() -> Counters {
        Counters {
            packets: 0,
            bytes: 0,
            idle_waits: 0,
            rejected_malformed: 0,
            rejected_foreign_receiver: 0,
            rejected_oversize: 0,
            rejected_unauthenticated: 0,
            rejected_replay: 0,
            adapter_transient: 0,
            diverted: 0,
        }
    }

    /// The counters after one reject: exactly one of them moved.
    pub open spec fn after_reject(self, reject: Reject) -> Counters {
        match reject {
            Reject::Malformed => Counters {
                rejected_malformed: bumped(self.rejected_malformed),
                ..self
            },
            Reject::ForeignReceiver => Counters {
                rejected_foreign_receiver: bumped(self.rejected_foreign_receiver),
                ..self
            },
            Reject::Oversize | Reject::Truncated => Counters {
                rejected_oversize: bumped(self.rejected_oversize),
                ..self
            },
            Reject::Unauthenticated => Counters {
                rejected_unauthenticated: bumped(self.rejected_unauthenticated),
                ..self
            },
            Reject::Replay => Counters { rejected_replay: bumped(self.rejected_replay), ..self },
        }
    }

    /// The sum of the reject counters, as a number.
    pub open spec fn rejects(self) -> int {
        self.rejected_malformed + self.rejected_foreign_receiver + self.rejected_oversize
            + self.rejected_unauthenticated + self.rejected_replay
    }

    /// Counts one reject.
    pub fn record(&mut self, reject: Reject)
        ensures
            *final(self) == old(self).after_reject(reject),
    {
        match reject {
            Reject::Malformed => {
                self.rejected_malformed = self.rejected_malformed.saturating_add(1);
            },
            Reject::ForeignReceiver => {
                self.rejected_foreign_receiver = self.rejected_foreign_receiver.saturating_add(1);
            },
            Reject::Oversize | Reject::Truncated => {
                self.rejected_oversize = self.rejected_oversize.saturating_add(1);
            },
            Reject::Unauthenticated => {
                self.rejected_unauthenticated = self.rejected_unauthenticated.saturating_add(1);
            },
            Reject::Replay => {
                self.rejected_replay = self.rejected_replay.saturating_add(1);
            },
        }
    }

    /// Counts one datagram that was handed to another component.
    pub fn record_diverted(&mut self)
        ensures
            *final(self) == (Counters { diverted: bumped(old(self).diverted), ..*old(self) }),
    {
        self.diverted = self.diverted.saturating_add(1);
    }

    /// Counts one carried packet.
    pub fn record_moved(&mut self, bytes: usize)
        ensures
            *final(self) == (Counters {
                packets: bumped(old(self).packets),
                bytes: capped(old(self).bytes + bytes),
                ..*old(self)
            }),
    {
        self.packets = self.packets.saturating_add(1);
        self.bytes = self.bytes.saturating_add(bytes as u64);
    }

    /// Every datagram this direction discarded.
    #[must_use]
    pub fn rejected_total(&self) -> (n: u64)
        ensures
            n == capped(self.rejects()),
    {
        self.rejected_malformed.saturating_add(self.rejected_foreign_receiver).saturating_add(
            self.rejected_oversize,
        ).saturating_add(self.rejected_unauthenticated).saturating_add(self.rejected_replay)
    }
}

impl Default for Counters {
    fn default() -> (c: Self)
        ensures
            c == Counters::zero(),
    {
        Counters {
            packets: 0,
            bytes: 0,
            idle_waits: 0,
            rejected_malformed: 0,
            rejected_foreign_receiver: 0,
            rejected_oversize: 0,
            rejected_unauthenticated: 0,
            rejected_replay: 0,
            adapter_transient: 0,
            diverted: 0,
        }
    }
}

/// Every reject is counted in exactly one place, so the total rises by one with
/// each, as long as no counter is at its end.
pub proof fn counters_bucket_every_reject(c: Counters, reject: Reject)
    requires
        c.rejects() < u64::MAX,
    ensures
        c.after_reject(reject).rejects() == c.rejects() + 1,
        c.after_reject(reject).packets == c.packets,
        c.after_reject(reject).bytes == c.bytes,
        c.after_reject(reject).diverted == c.diverted,
{
}

/// What one pump direction did before it stopped.
#[derive(Debug, Clone, Copy, PartialEq, Eq)]
pub struct Report {
    /// Why it stopped.
    pub stop: Stop,
    /// What it counted.
    pub counters: Counters,
}

} // verus!
