//! What each operation does.

pub mod bring_up;
pub mod carriage;
pub mod connect;
pub mod establishment;
pub mod handshake;
pub mod report;
pub mod sweep;
pub mod work;

use vstd::prelude::*;

use crate::build_identity::{Tier, WireIdentity};
use crate::dispatch::{disposed, peer_from_params, CoreCommand, Disposition, Submission};
use crate::gateway::{self, grants_octets, peers_octets, status_octets};
use crate::instance::{refused_with, Core};
use crate::octets::{self, be64};
use crate::reason::{Component, Diagnostic, Evidence, ReasonCode};
use crate::types::DeviceId;

verus! {

/// The invariant that an operation which is refused by name breaks when it is executed.
pub const MATCHES_DISAGREE: &'static str =
    "dispatch::disposition and execute disagree about this operation";

/// What executing an operation begins with.
#[derive(Debug, PartialEq, Eq)]
pub enum Execution {
    /// Connect to the peer that is named.
    Connect,
    /// Connect again to the peer that is named.
    Reconnect,
    /// Close the session with the peer that is named.
    Disconnect,
    /// Bring the network up.
    NetUp,
    /// Take the network down.
    NetDown,
    /// Report one session.
    SessionGet,
    /// Report how the instance stands.
    Sample,
    /// Report what this build is.
    Version(WireIdentity),
    /// Take a lifecycle phase.
    HostLifecycle,
    /// Take that the network changed.
    HostNetworkChanged,
    /// Begin a pairing.
    PairBegin,
    /// Cancel a pairing.
    PairCancel,
    /// Report a pairing.
    PairStatus,
    /// Nothing more: this is the answer.
    Answered(Vec<u8>),
    /// It is not performed.
    Refused(Diagnostic),
}

/// The diagnostic of an operation that reached execution and is not performed.
pub open spec fn disagreement() -> Diagnostic {
    Diagnostic {
        code: ReasonCode::InternalInvariantViolated,
        component: Component::ManagementInterface,
        evidence: Evidence::Invariant(MATCHES_DISAGREE),
    }
}

/// The octets of an answer that needs no work.
pub open spec fn answer_octets(core: Core, op: CoreCommand) -> Option<Seq<u8>> {
    match op {
        CoreCommand::LifecycleGet => Some(seq![core.lifecycle.selector()]),
        CoreCommand::EventSubscribe | CoreCommand::EventUnsubscribe => Some(
            be64(core.events.next_seq),
        ),
        CoreCommand::GatewayGet => Some(status_octets(core.gateway)),
        CoreCommand::GatewayPeerList => Some(peers_octets(core.gateway.admitted@)),
        CoreCommand::GatewayGrantList => Some(grants_octets(core.gateway.grants@)),
        _ => None,
    }
}

/// What executing an operation begins with, where it is no answer and no refusal.
pub open spec fn begun(op: CoreCommand) -> Option<Execution> {
    match op {
        CoreCommand::SessionConnect => Some(Execution::Connect),
        CoreCommand::SessionReconnect => Some(Execution::Reconnect),
        CoreCommand::SessionDisconnect => Some(Execution::Disconnect),
        CoreCommand::NetUp => Some(Execution::NetUp),
        CoreCommand::NetDown => Some(Execution::NetDown),
        CoreCommand::SessionGet => Some(Execution::SessionGet),
        CoreCommand::StatusGet
        | CoreCommand::SessionList
        | CoreCommand::PathList
        | CoreCommand::MetricsGet => Some(Execution::Sample),
        CoreCommand::HostLifecycle => Some(Execution::HostLifecycle),
        CoreCommand::HostNetworkChanged => Some(Execution::HostNetworkChanged),
        CoreCommand::PairBegin => Some(Execution::PairBegin),
        CoreCommand::PairCancel => Some(Execution::PairCancel),
        CoreCommand::PairStatus => Some(Execution::PairStatus),
        _ => None,
    }
}

/// The peer that a session operation names. A request that names none is refused.
pub fn named_peer(submission: &Submission) -> (r: Result<DeviceId, Diagnostic>)
    ensures
        match r {
            Ok(peer) => submission.params@.len() == 32 && peer.bytes@ == submission.params@,
            Err(d) => submission.params@.len() != 32 && d == refused_with(
                ReasonCode::ProtoMalformedMessage,
            ),
        },
{
    match peer_from_params(submission.params.as_slice()) {
        Some(peer) => Ok(peer),
        None => Err(
            Diagnostic::new(ReasonCode::ProtoMalformedMessage, Component::ManagementInterface),
        ),
    }
}

/// What executing an operation begins with.
pub open spec fn executes_as(core: Core, op: CoreCommand, e: Execution) -> bool {
    match disposed(op) {
        Disposition::NotWired { .. } => e == Execution::Refused(disagreement()),
        Disposition::Executes => match begun(op) {
            Some(begun) => e == begun,
            None => match answer_octets(core, op) {
                Some(octets) => e matches Execution::Answered(body) && body@ == octets,
                None => {
                    &&& op == CoreCommand::VersionGet
                    &&& e matches Execution::Version(wire)
                    &&& wire.core_version == core.identity.core_version
                    &&& wire.abi_major == core.identity.abi_major
                    &&& wire.abi_minor == core.identity.abi_minor
                    &&& wire.protocol_epoch_min == core.identity.protocol_epoch_min
                    &&& wire.protocol_epoch_max == core.identity.protocol_epoch_max
                    &&& wire.schema_digest@ == core.identity.schema_digest@
                    &&& wire.reason_registry_version == core.identity.reason_registry_version
                    &&& wire.crypto_provider == core.identity.crypto_provider
                    &&& wire.profile == core.identity.profile
                    &&& wire.target_triple == core.identity.target_triple
                    &&& wire.source_commit == core.identity.source_commit
                    &&& wire.hardware_backed == core.identity.hardware_backed
                },
            },
        },
    }
}

/// Begins to execute an operation that was let in. One that this build does not
/// perform never gets here; if it does, that is a defect of the core, and is reported as
/// one.
pub fn execute(core: &Core, submission: &Submission) -> (e: Execution)
    requires
        core.wf(),
    ensures
        executes_as(*core, submission.op, e),
{
    match submission.op {
        CoreCommand::SessionConnect => Execution::Connect,
        CoreCommand::SessionReconnect => Execution::Reconnect,
        CoreCommand::SessionDisconnect => Execution::Disconnect,
        CoreCommand::NetUp => Execution::NetUp,
        CoreCommand::NetDown => Execution::NetDown,
        CoreCommand::SessionGet => Execution::SessionGet,
        CoreCommand::StatusGet
        | CoreCommand::SessionList
        | CoreCommand::PathList
        | CoreCommand::MetricsGet => Execution::Sample,
        CoreCommand::VersionGet => Execution::Version(
            core.build_identity().to_wire(Tier::LocalLedger),
        ),
        CoreCommand::LifecycleGet => {
            let mut body: Vec<u8> = Vec::new();
            body.push(core.lifecycle().to_params());
            assert(body@ =~= seq![core.lifecycle.selector()]);
            Execution::Answered(body)
        },
        CoreCommand::HostLifecycle => Execution::HostLifecycle,
        CoreCommand::HostNetworkChanged => Execution::HostNetworkChanged,
        CoreCommand::EventSubscribe | CoreCommand::EventUnsubscribe => {
            let mut body: Vec<u8> = Vec::new();
            octets::put_be64(&mut body, core.event_cursor());
            assert(body@ =~= be64(core.events.next_seq));
            Execution::Answered(body)
        },
        CoreCommand::GatewayGet => Execution::Answered(gateway::encode_status(&core.gateway)),
        CoreCommand::GatewayPeerList => Execution::Answered(gateway::encode_peers(&core.gateway)),
        CoreCommand::GatewayGrantList => Execution::Answered(gateway::encode_grants(&core.gateway)),
        CoreCommand::PairBegin => Execution::PairBegin,
        CoreCommand::PairCancel => Execution::PairCancel,
        CoreCommand::PairStatus => Execution::PairStatus,
        _ => Execution::Refused(
            Diagnostic::invariant_violated(Component::ManagementInterface, MATCHES_DISAGREE),
        ),
    }
}

/// An operation that is performed has a beginning or an answer, and none is refused for
/// a disagreement.
pub proof fn what_is_performed_begins(core: Core, op: CoreCommand)
    requires
        disposed(op) is Executes,
    ensures
        begun(op) is Some || answer_octets(core, op) is Some || op == CoreCommand::VersionGet,
{
}

} // verus!
