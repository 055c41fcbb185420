//! Reason codes and the diagnostics that carry them.

use vstd::prelude::*;
use vstd::utf8::decode_utf8;
use vstd::utf8::encode_utf8;
use vstd::utf8::encode_utf8_decode_utf8;
use vstd::utf8::encode_utf8_valid_utf8;
use vstd::utf8::valid_utf8;

use crate::types::same_text;

verus! {

/// A registered reason code.
#[derive(Debug, Clone, Copy, PartialEq, Eq)]
pub enum ReasonCode {
    /// `AUTH.BINDING_INVALID`.
    AuthBindingInvalid,
    /// `AUTH.CLOCK_IMPLAUSIBLE`.
    AuthClockImplausible,
    /// `AUTH.DEVICE_REVOKED`.
    AuthDeviceRevoked,
    /// `AUTH.IDENTITY_MISMATCH`.
    AuthIdentityMismatch,
    /// `AUTH.IDENTITY_MISSING`.
    AuthIdentityMissing,
    /// `AUTH.KEY_UNAVAILABLE`.
    AuthKeyUnavailable,
    /// `AUTH.PAIRING_EXPIRED`.
    AuthPairingExpired,
    /// `AUTH.PAIRING_NOT_AUTHORIZED`.
    AuthPairingNotAuthorized,
    /// `AUTH.PEER_UNTRUSTED`.
    AuthPeerUntrusted,
    /// `CONTROL.HANDSHAKE_REJECTED`.
    ControlHandshakeRejected,
    /// `CONTROL.UNREACHABLE`.
    ControlUnreachable,
    /// `CRYPTO.HANDSHAKE_REJECTED`.
    CryptoHandshakeRejected,
    /// `CRYPTO.NO_RESPONSE`.
    CryptoNoResponse,
    /// `CRYPTO.PEER_KEY_UNKNOWN`.
    CryptoPeerKeyUnknown,
    /// `CRYPTO.REPLAY_DETECTED`.
    CryptoReplayDetected,
    /// `DNS.RESOLUTION_BLOCKED_FAIL_CLOSED`.
    DnsResolutionBlockedFailClosed,
    /// `INTERNAL.ABI_VERSION_MISMATCH`.
    InternalAbiVersionMismatch,
    /// `INTERNAL.CORE_PANIC`.
    InternalCorePanic,
    /// `INTERNAL.INVARIANT_VIOLATED`.
    InternalInvariantViolated,
    /// `INTERNAL.UNEXPECTED_STATE`.
    InternalUnexpectedState,
    /// `MGMT.DISARM_REQUIRES_LOCAL_AUTH`.
    MgmtDisarmRequiresLocalAuth,
    /// `MGMT.PRECONDITION_FAILED`.
    MgmtPreconditionFailed,
    /// `NET.MTU_TOO_SMALL`.
    NetMtuTooSmall,
    /// `NET.NO_ROUTE`.
    NetNoRoute,
    /// `NET.NO_USABLE_CANDIDATES`.
    NetNoUsableCandidates,
    /// `NET.QOS_DEGRADED_TIMEOUT`.
    NetQosDegradedTimeout,
    /// `NET.SESSION_CLOSED_BY_USER`.
    NetSessionClosedByUser,
    /// `PLATFORM.ADAPTER_UNAVAILABLE`.
    PlatformAdapterUnavailable,
    /// `PLATFORM.OS_UNSUPPORTED`.
    PlatformOsUnsupported,
    /// `POLICY.KILLSWITCH_ENGAGED`.
    PolicyKillswitchEngaged,
    /// `PROTO.CAPABILITY_MISSING`.
    ProtoCapabilityMissing,
    /// `PROTO.MALFORMED_MESSAGE`.
    ProtoMalformedMessage,
    /// `PROTO.SIZE_EXCEEDED`.
    ProtoSizeExceeded,
    /// `PROTO.TRANSCRIPT_MISMATCH`.
    ProtoTranscriptMismatch,
    /// `PROTO.UNPARSEABLE_ENVELOPE`.
    ProtoUnparseableEnvelope,
    /// `RELAY.NONE_REACHABLE`.
    RelayNoneReachable,
    /// `STORE.CUSTODY_DEGRADED`.
    StoreCustodyDegraded,
    /// `UPDATE.APPLY_WINDOW_EXCEEDED`.
    UpdateApplyWindowExceeded,
    /// A code that a component below the core registers, by its text.
    Registered(&'static str),
}

impl ReasonCode {
    /// The code's text.
    pub open spec fn name(self) -> Seq<char> {
        match self {
            ReasonCode::AuthBindingInvalid => "AUTH.BINDING_INVALID"@,
            ReasonCode::AuthClockImplausible => "AUTH.CLOCK_IMPLAUSIBLE"@,
            ReasonCode::AuthDeviceRevoked => "AUTH.DEVICE_REVOKED"@,
            ReasonCode::AuthIdentityMismatch => "AUTH.IDENTITY_MISMATCH"@,
            ReasonCode::AuthIdentityMissing => "AUTH.IDENTITY_MISSING"@,
            ReasonCode::AuthKeyUnavailable => "AUTH.KEY_UNAVAILABLE"@,
            ReasonCode::AuthPairingExpired => "AUTH.PAIRING_EXPIRED"@,
            ReasonCode::AuthPairingNotAuthorized => "AUTH.PAIRING_NOT_AUTHORIZED"@,
            ReasonCode::AuthPeerUntrusted => "AUTH.PEER_UNTRUSTED"@,
            ReasonCode::ControlHandshakeRejected => "CONTROL.HANDSHAKE_REJECTED"@,
            ReasonCode::ControlUnreachable => "CONTROL.UNREACHABLE"@,
            ReasonCode::CryptoHandshakeRejected => "CRYPTO.HANDSHAKE_REJECTED"@,
            ReasonCode::CryptoNoResponse => "CRYPTO.NO_RESPONSE"@,
            ReasonCode::CryptoPeerKeyUnknown => "CRYPTO.PEER_KEY_UNKNOWN"@,
            ReasonCode::CryptoReplayDetected => "CRYPTO.REPLAY_DETECTED"@,
            ReasonCode::DnsResolutionBlockedFailClosed => "DNS.RESOLUTION_BLOCKED_FAIL_CLOSED"@,
            ReasonCode::InternalAbiVersionMismatch => "INTERNAL.ABI_VERSION_MISMATCH"@,
            ReasonCode::InternalCorePanic => "INTERNAL.CORE_PANIC"@,
            ReasonCode::InternalInvariantViolated => "INTERNAL.INVARIANT_VIOLATED"@,
            ReasonCode::InternalUnexpectedState => "INTERNAL.UNEXPECTED_STATE"@,
            ReasonCode::MgmtDisarmRequiresLocalAuth => "MGMT.DISARM_REQUIRES_LOCAL_AUTH"@,
            ReasonCode::MgmtPreconditionFailed => "MGMT.PRECONDITION_FAILED"@,
            ReasonCode::NetMtuTooSmall => "NET.MTU_TOO_SMALL"@,
            ReasonCode::NetNoRoute => "NET.NO_ROUTE"@,
            ReasonCode::NetNoUsableCandidates => "NET.NO_USABLE_CANDIDATES"@,
            ReasonCode::NetQosDegradedTimeout => "NET.QOS_DEGRADED_TIMEOUT"@,
            ReasonCode::NetSessionClosedByUser => "NET.SESSION_CLOSED_BY_USER"@,
            ReasonCode::PlatformAdapterUnavailable => "PLATFORM.ADAPTER_UNAVAILABLE"@,
            ReasonCode::PlatformOsUnsupported => "PLATFORM.OS_UNSUPPORTED"@,
            ReasonCode::PolicyKillswitchEngaged => "POLICY.KILLSWITCH_ENGAGED"@,
            ReasonCode::ProtoCapabilityMissing => "PROTO.CAPABILITY_MISSING"@,
            ReasonCode::ProtoMalformedMessage => "PROTO.MALFORMED_MESSAGE"@,
            ReasonCode::ProtoSizeExceeded => "PROTO.SIZE_EXCEEDED"@,
            ReasonCode::ProtoTranscriptMismatch => "PROTO.TRANSCRIPT_MISMATCH"@,
            ReasonCode::ProtoUnparseableEnvelope => "PROTO.UNPARSEABLE_ENVELOPE"@,
            ReasonCode::RelayNoneReachable => "RELAY.NONE_REACHABLE"@,
            ReasonCode::StoreCustodyDegraded => "STORE.CUSTODY_DEGRADED"@,
            ReasonCode::UpdateApplyWindowExceeded => "UPDATE.APPLY_WINDOW_EXCEEDED"@,
            ReasonCode::Registered(text) => text@,
        }
    }

    /// The code's text.
    #[must_use]
    pub fn as_str(&self) -> (s: &'static str)
        ensures
            s@ == self.name(),
    {
        match self {
            ReasonCode::AuthBindingInvalid => "AUTH.BINDING_INVALID",
            ReasonCode::AuthClockImplausible => "AUTH.CLOCK_IMPLAUSIBLE",
            ReasonCode::AuthDeviceRevoked => "AUTH.DEVICE_REVOKED",
            ReasonCode::AuthIdentityMismatch => "AUTH.IDENTITY_MISMATCH",
            ReasonCode::AuthIdentityMissing => "AUTH.IDENTITY_MISSING",
            ReasonCode::AuthKeyUnavailable => "AUTH.KEY_UNAVAILABLE",
            ReasonCode::AuthPairingExpired => "AUTH.PAIRING_EXPIRED",
            ReasonCode::AuthPairingNotAuthorized => "AUTH.PAIRING_NOT_AUTHORIZED",
            ReasonCode::AuthPeerUntrusted => "AUTH.PEER_UNTRUSTED",
            ReasonCode::ControlHandshakeRejected => "CONTROL.HANDSHAKE_REJECTED",
            ReasonCode::ControlUnreachable => "CONTROL.UNREACHABLE",
            ReasonCode::CryptoHandshakeRejected => "CRYPTO.HANDSHAKE_REJECTED",
            ReasonCode::CryptoNoResponse => "CRYPTO.NO_RESPONSE",
            ReasonCode::CryptoPeerKeyUnknown => "CRYPTO.PEER_KEY_UNKNOWN",
            ReasonCode::CryptoReplayDetected => "CRYPTO.REPLAY_DETECTED",
            ReasonCode::DnsResolutionBlockedFailClosed => "DNS.RESOLUTION_BLOCKED_FAIL_CLOSED",
            ReasonCode::InternalAbiVersionMismatch => "INTERNAL.ABI_VERSION_MISMATCH",
            ReasonCode::InternalCorePanic => "INTERNAL.CORE_PANIC",
            ReasonCode::InternalInvariantViolated => "INTERNAL.INVARIANT_VIOLATED",
            ReasonCode::InternalUnexpectedState => "INTERNAL.UNEXPECTED_STATE",
            ReasonCode::MgmtDisarmRequiresLocalAuth => "MGMT.DISARM_REQUIRES_LOCAL_AUTH",
            ReasonCode::MgmtPreconditionFailed => "MGMT.PRECONDITION_FAILED",
            ReasonCode::NetMtuTooSmall => "NET.MTU_TOO_SMALL",
            ReasonCode::NetNoRoute => "NET.NO_ROUTE",
            ReasonCode::NetNoUsableCandidates => "NET.NO_USABLE_CANDIDATES",
            ReasonCode::NetQosDegradedTimeout => "NET.QOS_DEGRADED_TIMEOUT",
            ReasonCode::NetSessionClosedByUser => "NET.SESSION_CLOSED_BY_USER",
            ReasonCode::PlatformAdapterUnavailable => "PLATFORM.ADAPTER_UNAVAILABLE",
            ReasonCode::PlatformOsUnsupported => "PLATFORM.OS_UNSUPPORTED",
            ReasonCode::PolicyKillswitchEngaged => "POLICY.KILLSWITCH_ENGAGED",
            ReasonCode::ProtoCapabilityMissing => "PROTO.CAPABILITY_MISSING",
            ReasonCode::ProtoMalformedMessage => "PROTO.MALFORMED_MESSAGE",
            ReasonCode::ProtoSizeExceeded => "PROTO.SIZE_EXCEEDED",
            ReasonCode::ProtoTranscriptMismatch => "PROTO.TRANSCRIPT_MISMATCH",
            ReasonCode::ProtoUnparseableEnvelope => "PROTO.UNPARSEABLE_ENVELOPE",
            ReasonCode::RelayNoneReachable => "RELAY.NONE_REACHABLE",
            ReasonCode::StoreCustodyDegraded => "STORE.CUSTODY_DEGRADED",
            ReasonCode::UpdateApplyWindowExceeded => "UPDATE.APPLY_WINDOW_EXCEEDED",
            ReasonCode::Registered(text) => *text,
        }
    }

    /// The core raises the code itself.
    pub open spec fn own(self) -> bool {
        !(self is Registered)
    }

    /// The code with this text, among those the core raises itself.
    fn own_lookup(text: &str) -> (code: Option<ReasonCode>)
        ensures
            match code {
                Some(c) => c.own() && c.name() == text@,
                None => forall|c: ReasonCode| c.own() ==> #[trigger] c.name() != text@,
            },
    {
        if same_text(text, "AUTH.BINDING_INVALID") {
            Some(ReasonCode::AuthBindingInvalid)
        } else if same_text(text, "AUTH.CLOCK_IMPLAUSIBLE") {
            Some(ReasonCode::AuthClockImplausible)
        } else if same_text(text, "AUTH.DEVICE_REVOKED") {
            Some(ReasonCode::AuthDeviceRevoked)
        } else if same_text(text, "AUTH.IDENTITY_MISMATCH") {
            Some(ReasonCode::AuthIdentityMismatch)
        } else if same_text(text, "AUTH.IDENTITY_MISSING") {
            Some(ReasonCode::AuthIdentityMissing)
        } else if same_text(text, "AUTH.KEY_UNAVAILABLE") {
            Some(ReasonCode::AuthKeyUnavailable)
        } else if same_text(text, "AUTH.PAIRING_EXPIRED") {
            Some(ReasonCode::AuthPairingExpired)
        } else if same_text(text, "AUTH.PAIRING_NOT_AUTHORIZED") {
            Some(ReasonCode::AuthPairingNotAuthorized)
        } else if same_text(text, "AUTH.PEER_UNTRUSTED") {
            Some(ReasonCode::AuthPeerUntrusted)
        } else if same_text(text, "CONTROL.HANDSHAKE_REJECTED") {
            Some(ReasonCode::ControlHandshakeRejected)
        } else if same_text(text, "CONTROL.UNREACHABLE") {
            Some(ReasonCode::ControlUnreachable)
        } else if same_text(text, "CRYPTO.HANDSHAKE_REJECTED") {
            Some(ReasonCode::CryptoHandshakeRejected)
        } else if same_text(text, "CRYPTO.NO_RESPONSE") {
            Some(ReasonCode::CryptoNoResponse)
        } else if same_text(text, "CRYPTO.PEER_KEY_UNKNOWN") {
            Some(ReasonCode::CryptoPeerKeyUnknown)
        } else if same_text(text, "CRYPTO.REPLAY_DETECTED") {
            Some(ReasonCode::CryptoReplayDetected)
        } else if same_text(text, "DNS.RESOLUTION_BLOCKED_FAIL_CLOSED") {
            Some(ReasonCode::DnsResolutionBlockedFailClosed)
        } else if same_text(text, "INTERNAL.ABI_VERSION_MISMATCH") {
            Some(ReasonCode::InternalAbiVersionMismatch)
        } else if same_text(text, "INTERNAL.CORE_PANIC") {
            Some(ReasonCode::InternalCorePanic)
        } else if same_text(text, "INTERNAL.INVARIANT_VIOLATED") {
            Some(ReasonCode::InternalInvariantViolated)
        } else if same_text(text, "INTERNAL.UNEXPECTED_STATE") {
            Some(ReasonCode::InternalUnexpectedState)
        } else if same_text(text, "MGMT.DISARM_REQUIRES_LOCAL_AUTH") {
            Some(ReasonCode::MgmtDisarmRequiresLocalAuth)
        } else if same_text(text, "MGMT.PRECONDITION_FAILED") {
            Some(ReasonCode::MgmtPreconditionFailed)
        } else if same_text(text, "NET.MTU_TOO_SMALL") {
            Some(ReasonCode::NetMtuTooSmall)
        } else if same_text(text, "NET.NO_ROUTE") {
            Some(ReasonCode::NetNoRoute)
        } else if same_text(text, "NET.NO_USABLE_CANDIDATES") {
            Some(ReasonCode::NetNoUsableCandidates)
        } else if same_text(text, "NET.QOS_DEGRADED_TIMEOUT") {
            Some(ReasonCode::NetQosDegradedTimeout)
        } else if same_text(text, "NET.SESSION_CLOSED_BY_USER") {
            Some(ReasonCode::NetSessionClosedByUser)
        } else if same_text(text, "PLATFORM.ADAPTER_UNAVAILABLE") {
            Some(ReasonCode::PlatformAdapterUnavailable)
        } else if same_text(text, "PLATFORM.OS_UNSUPPORTED") {
            Some(ReasonCode::PlatformOsUnsupported)
        } else if same_text(text, "POLICY.KILLSWITCH_ENGAGED") {
            Some(ReasonCode::PolicyKillswitchEngaged)
        } else if same_text(text, "PROTO.CAPABILITY_MISSING") {
            Some(ReasonCode::ProtoCapabilityMissing)
        } else if same_text(text, "PROTO.MALFORMED_MESSAGE") {
            Some(ReasonCode::ProtoMalformedMessage)
        } else if same_text(text, "PROTO.SIZE_EXCEEDED") {
            Some(ReasonCode::ProtoSizeExceeded)
        } else if same_text(text, "PROTO.TRANSCRIPT_MISMATCH") {
            Some(ReasonCode::ProtoTranscriptMismatch)
        } else if same_text(text, "PROTO.UNPARSEABLE_ENVELOPE") {
            Some(ReasonCode::ProtoUnparseableEnvelope)
        } else if same_text(text, "RELAY.NONE_REACHABLE") {
            Some(ReasonCode::RelayNoneReachable)
        } else if same_text(text, "STORE.CUSTODY_DEGRADED") {
            Some(ReasonCode::StoreCustodyDegraded)
        } else if same_text(text, "UPDATE.APPLY_WINDOW_EXCEEDED") {
            Some(ReasonCode::UpdateApplyWindowExceeded)
        } else {
            None
        }
    }

    /// The code with this text: one that the core raises itself, or one of
    /// `registered`, which the components below it raise.
    #[must_use]
    pub fn lookup(text: &str, registered: &Vec<&'static str>) -> (code: Option<ReasonCode>)
        ensures
            looked_up(text@, registered@, code),
    {
        match ReasonCode::own_lookup(text) {
            Some(c) => Some(c),
            None => {
                let mut i: usize = 0;
                while i < registered.len()
                    invariant
                        i <= registered@.len(),
                        forall|j: int| 0 <= j < i ==> (#[trigger] registered@[j])@ != text@,
                        forall|c: ReasonCode| c.own() ==> #[trigger] c.name() != text@,
                    decreases registered@.len() - i,
                {
                    if same_text(registered[i], text) {
                        return Some(ReasonCode::Registered(registered[i]));
                    }
                    i += 1;
                }
                None
            },
        }
    }
}

/// `code` is what a text stands for: one of the core's own codes where one has that
/// text, else a registered one with that text, else nothing.
pub open spec fn looked_up(
    text: Seq<char>,
    registered: Seq<&'static str>,
    code: Option<ReasonCode>,
) -> bool {
    match code {
        Some(ReasonCode::Registered(t)) => {
            &&& t@ == text
            &&& registered.contains(t)
            &&& forall|c: ReasonCode| c.own() ==> #[trigger] c.name() != text
        },
        Some(c) => c.name() == text,
        None => {
            &&& forall|c: ReasonCode| c.own() ==> #[trigger] c.name() != text
            &&& forall|i: int| 0 <= i < registered.len() ==> (#[trigger] registered[i])@ != text
        },
    }
}

/// A text stands for one code: two lookups differ in nothing that either says.
pub proof fn a_text_stands_for_one_code(
    text: Seq<char>,
    registered: Seq<&'static str>,
    a: Option<ReasonCode>,
    b: Option<ReasonCode>,
)
    requires
        looked_up(text, registered, a),
        looked_up(text, registered, b),
    ensures
        a is Some == b is Some,
        a is Some ==> a->0.own() == b->0.own(),
        a is Some && a->0.own() ==> a == b,
        a is Some ==> a->0.name() == b->0.name(),
{
    if let (Some(x), Some(y)) = (a, b) {
        if x.own() && y.own() {
            own_codes_have_distinct_texts(x, y);
        }
        assert(x.name() == text && y.name() == text);
    }
    if let (Some(x), None) = (a, b) {
        assert(x.name() == text);
        if !x.own() {
            let i = choose|i: int| 0 <= i < registered.len() && registered[i] == x->0;
            assert(registered[i]@ == text);
        }
    }
    if let (None, Some(y)) = (a, b) {
        assert(y.name() == text);
        if !y.own() {
            let i = choose|i: int| 0 <= i < registered.len() && registered[i] == y->0;
            assert(registered[i]@ == text);
        }
    }
}

/// A number for each code the core raises itself.
spec fn ordinal(c: ReasonCode) -> int {
    match c {
        ReasonCode::AuthBindingInvalid => 0,
        ReasonCode::AuthClockImplausible => 1,
        ReasonCode::AuthDeviceRevoked => 2,
        ReasonCode::AuthIdentityMismatch => 3,
        ReasonCode::AuthIdentityMissing => 4,
        ReasonCode::AuthKeyUnavailable => 5,
        ReasonCode::AuthPairingExpired => 6,
        ReasonCode::AuthPairingNotAuthorized => 7,
        ReasonCode::AuthPeerUntrusted => 8,
        ReasonCode::ControlHandshakeRejected => 9,
        ReasonCode::ControlUnreachable => 10,
        ReasonCode::CryptoHandshakeRejected => 11,
        ReasonCode::CryptoNoResponse => 12,
        ReasonCode::CryptoPeerKeyUnknown => 13,
        ReasonCode::CryptoReplayDetected => 14,
        ReasonCode::DnsResolutionBlockedFailClosed => 15,
        ReasonCode::InternalAbiVersionMismatch => 16,
        ReasonCode::InternalCorePanic => 17,
        ReasonCode::InternalInvariantViolated => 18,
        ReasonCode::InternalUnexpectedState => 19,
        ReasonCode::MgmtDisarmRequiresLocalAuth => 20,
        ReasonCode::MgmtPreconditionFailed => 21,
        ReasonCode::NetMtuTooSmall => 22,
        ReasonCode::NetNoRoute => 23,
        ReasonCode::NetNoUsableCandidates => 24,
        ReasonCode::NetQosDegradedTimeout => 25,
        ReasonCode::NetSessionClosedByUser => 26,
        ReasonCode::PlatformAdapterUnavailable => 27,
        ReasonCode::PlatformOsUnsupported => 28,
        ReasonCode::PolicyKillswitchEngaged => 29,
        ReasonCode::ProtoCapabilityMissing => 30,
        ReasonCode::ProtoMalformedMessage => 31,
        ReasonCode::ProtoSizeExceeded => 32,
        ReasonCode::ProtoTranscriptMismatch => 33,
        ReasonCode::ProtoUnparseableEnvelope => 34,
        ReasonCode::RelayNoneReachable => 35,
        ReasonCode::StoreCustodyDegraded => 36,
        ReasonCode::UpdateApplyWindowExceeded => 37,
        ReasonCode::Registered(_) => -1,
    }
}

/// The ordinal that a text's length and eighth character give away.
spec fn ordinal_of_text(t: Seq<char>) -> int {
    if t.len() == 20 && t[7] == 'N' {
        0
    } else if t.len() == 22 && t[7] == 'O' {
        1
    } else if t.len() == 19 && t[7] == 'V' {
        2
    } else if t.len() == 22 && t[7] == 'E' {
        3
    } else if t.len() == 21 && t[7] == 'E' {
        4
    } else if t.len() == 20 && t[7] == 'Y' {
        5
    } else if t.len() == 20 && t[7] == 'I' {
        6
    } else if t.len() == 27 && t[7] == 'I' {
        7
    } else if t.len() == 19 && t[7] == 'E' {
        8
    } else if t.len() == 26 && t[7] == '.' {
        9
    } else if t.len() == 19 && t[7] == '.' {
        10
    } else if t.len() == 25 && t[7] == 'H' {
        11
    } else if t.len() == 18 && t[7] == 'N' {
        12
    } else if t.len() == 23 && t[7] == 'P' {
        13
    } else if t.len() == 22 && t[7] == 'R' {
        14
    } else if t.len() == 34 && t[7] == 'O' {
        15
    } else if t.len() == 29 && t[7] == 'L' {
        16
    } else if t.len() == 19 && t[7] == 'L' {
        17
    } else if t.len() == 27 && t[7] == 'L' {
        18
    } else if t.len() == 25 && t[7] == 'L' {
        19
    } else if t.len() == 31 && t[7] == 'S' {
        20
    } else if t.len() == 24 && t[7] == 'E' {
        21
    } else if t.len() == 17 && t[7] == '_' {
        22
    } else if t.len() == 12 && t[7] == 'R' {
        23
    } else if t.len() == 24 && t[7] == 'U' {
        24
    } else if t.len() == 24 && t[7] == '_' {
        25
    } else if t.len() == 26 && t[7] == 'S' {
        26
    } else if t.len() == 28 && t[7] == 'M' {
        27
    } else if t.len() == 23 && t[7] == 'M' {
        28
    } else if t.len() == 25 && t[7] == 'K' {
        29
    } else if t.len() == 24 && t[7] == 'A' {
        30
    } else if t.len() == 23 && t[7] == 'A' {
        31
    } else if t.len() == 19 && t[7] == 'I' {
        32
    } else if t.len() == 25 && t[7] == 'R' {
        33
    } else if t.len() == 26 && t[7] == 'N' {
        34
    } else if t.len() == 20 && t[7] == 'O' {
        35
    } else if t.len() == 22 && t[7] == 'U' {
        36
    } else if t.len() == 28 && t[7] == 'A' {
        37
    } else {
        -1
    }
}

proof fn text_gives_the_code_away(c: ReasonCode)
    requires
        c.own(),
    ensures
        ordinal_of_text(c.name()) == ordinal(c),
{
    reveal_strlit("AUTH.BINDING_INVALID");
    reveal_strlit("AUTH.CLOCK_IMPLAUSIBLE");
    reveal_strlit("AUTH.DEVICE_REVOKED");
    reveal_strlit("AUTH.IDENTITY_MISMATCH");
    reveal_strlit("AUTH.IDENTITY_MISSING");
    reveal_strlit("AUTH.KEY_UNAVAILABLE");
    reveal_strlit("AUTH.PAIRING_EXPIRED");
    reveal_strlit("AUTH.PAIRING_NOT_AUTHORIZED");
    reveal_strlit("AUTH.PEER_UNTRUSTED");
    reveal_strlit("CONTROL.HANDSHAKE_REJECTED");
    reveal_strlit("CONTROL.UNREACHABLE");
    reveal_strlit("CRYPTO.HANDSHAKE_REJECTED");
    reveal_strlit("CRYPTO.NO_RESPONSE");
    reveal_strlit("CRYPTO.PEER_KEY_UNKNOWN");
    reveal_strlit("CRYPTO.REPLAY_DETECTED");
    reveal_strlit("DNS.RESOLUTION_BLOCKED_FAIL_CLOSED");
    reveal_strlit("INTERNAL.ABI_VERSION_MISMATCH");
    reveal_strlit("INTERNAL.CORE_PANIC");
    reveal_strlit("INTERNAL.INVARIANT_VIOLATED");
    reveal_strlit("INTERNAL.UNEXPECTED_STATE");
    reveal_strlit("MGMT.DISARM_REQUIRES_LOCAL_AUTH");
    reveal_strlit("MGMT.PRECONDITION_FAILED");
    reveal_strlit("NET.MTU_TOO_SMALL");
    reveal_strlit("NET.NO_ROUTE");
    reveal_strlit("NET.NO_USABLE_CANDIDATES");
    reveal_strlit("NET.QOS_DEGRADED_TIMEOUT");
    reveal_strlit("NET.SESSION_CLOSED_BY_USER");
    reveal_strlit("PLATFORM.ADAPTER_UNAVAILABLE");
    reveal_strlit("PLATFORM.OS_UNSUPPORTED");
    reveal_strlit("POLICY.KILLSWITCH_ENGAGED");
    reveal_strlit("PROTO.CAPABILITY_MISSING");
    reveal_strlit("PROTO.MALFORMED_MESSAGE");
    reveal_strlit("PROTO.SIZE_EXCEEDED");
    reveal_strlit("PROTO.TRANSCRIPT_MISMATCH");
    reveal_strlit("PROTO.UNPARSEABLE_ENVELOPE");
    reveal_strlit("RELAY.NONE_REACHABLE");
    reveal_strlit("STORE.CUSTODY_DEGRADED");
    reveal_strlit("UPDATE.APPLY_WINDOW_EXCEEDED");
}

/// No two of the core's own codes share a text.
pub proof fn own_codes_have_distinct_texts(a: ReasonCode, b: ReasonCode)
    requires
        a.own(),
        b.own(),
        a.name() == b.name(),
    ensures
        a == b,
{
    text_gives_the_code_away(a);
    text_gives_the_code_away(b);
}

/// A character takes from one to four octets.
proof fn a_text_takes_few_octets(t: Seq<char>)
    ensures
        t.len() <= encode_utf8(t).len() <= 4 * t.len(),
    decreases t.len(),
{
    if t.len() > 0 {
        a_text_takes_few_octets(t.drop_first());
    }
}

/// The text of every code that the core raises itself fits one length octet.
pub proof fn own_texts_are_short(c: ReasonCode)
    requires
        c.own(),
    ensures
        0 < encode_utf8(c.name()).len() <= 255,
{
    text_gives_the_code_away(c);
    assert(ordinal(c) >= 0);
    assert(12 <= c.name().len() <= 34);
    a_text_takes_few_octets(c.name());
}

/// A component of the client.
#[derive(Debug, Clone, Copy, PartialEq, Eq, Structural)]
pub enum Component {
    /// The control-plane client.
    ControlPlaneClient,
    /// Diagnostics.
    Diagnostics,
    /// Name resolution.
    Dns,
    /// The kill switch.
    KillSwitch,
    /// The management interface.
    ManagementInterface,
    /// Pairing.
    Pairing,
    /// The platform adapter.
    PlatformAdapter,
    /// The relay client.
    RelayClient,
    /// The routing engine.
    RoutingEngine,
    /// The store.
    Store,
    /// The tunnel engine.
    TunnelEngine,
}

/// What a diagnostic brings along.
#[derive(Debug, Clone, Copy, PartialEq, Eq)]
pub enum Evidence {
    /// Nothing.
    Nothing,
    /// Which ABI majors met.
    Abi {
        /// What the shell was compiled against.
        shell_abi_major: u32,
        /// The lowest the core serves.
        core_abi_min: u32,
        /// The highest the core serves.
        core_abi_max: u32,
    },
    /// The arm step that failed.
    ArmStep(&'static str),
    /// The invariant that did not hold.
    Invariant(&'static str),
    /// What the platform adapter says of its own refusal.
    Adapter(&'static str),
}

/// A registered code, the component that raised it, and its evidence.
#[derive(Debug, Clone, Copy, PartialEq, Eq)]
pub struct Diagnostic {
    /// The code.
    pub code: ReasonCode,
    /// Who raised it.
    pub component: Component,
    /// What it brings along.
    pub evidence: Evidence,
}

impl Diagnostic {
    /// A diagnostic without evidence.
    pub open spec fn plain(code: ReasonCode, component: Component) -> Diagnostic {
        Diagnostic { code, component, evidence: Evidence::Nothing }
    }

    /// A diagnostic without evidence.
    pub fn new(code: ReasonCode, component: Component) -> (d: Self)
        ensures
            d == Diagnostic::plain(code, component),
    {
        Diagnostic { code, component, evidence: Evidence::Nothing }
    }

    /// An invariant of the core did not hold.
    pub fn invariant_violated(component: Component, what: &'static str) -> (d: Self)
        ensures
            d.code == ReasonCode::InternalInvariantViolated,
            d.component == component,
            d.evidence == Evidence::Invariant(what),
    {
        Diagnostic {
            code: ReasonCode::InternalInvariantViolated,
            component,
            evidence: Evidence::Invariant(what),
        }
    }

    /// The code.
    #[must_use]
    pub fn code(&self) -> (c: ReasonCode)
        ensures
            c == self.code,
    {
        self.code
    }
}

/// Calls `core::str::from_utf8`: the text that the octets encode, and `None`
/// exactly where they are not UTF-8.
#[verifier::external_body]
pub(crate) fn text_of(bytes: &[u8]) -> (text: Option<String>)
    ensures
        match text {
            Some(s) => valid_utf8(bytes@) && s@ == decode_utf8(bytes@),
            None => !valid_utf8(bytes@),
        },
{
    match core::str::from_utf8(bytes) {
        Ok(s) => Some(s.to_owned()),
        Err(_) => None,
    }
}

/// The octets of a text decode to it.
pub proof fn text_survives_encoding(t: Seq<char>)
    ensures
        valid_utf8(encode_utf8(t)),
        decode_utf8(encode_utf8(t)) == t,
{
    encode_utf8_valid_utf8(t);
    encode_utf8_decode_utf8(t);
}

} // verus!
