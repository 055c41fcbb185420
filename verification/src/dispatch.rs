//! What the core does with each operation of the catalogue.
//!
//! [`disposition`] states for every operation either that it is performed or why it
//! is refused: an operation cannot acquire an empty implementation, and a refusal
//! is worth more than a false success.

use vstd::prelude::*;

use crate::pairing::{Ceremony, PAIRING_ID_BYTES};
use crate::reason::{a_text_stands_for_one_code, looked_up, ReasonCode};
use crate::session::Event;
use crate::types::DeviceId;

verus! {

/// An operation of the catalogue.
#[derive(Debug, Clone, Copy, PartialEq, Eq, Structural)]
pub enum CoreCommand {
    /// `status.get`.
    StatusGet,
    /// `session.list`.
    SessionList,
    /// `session.get`.
    SessionGet,
    /// `path.list`.
    PathList,
    /// `version.get`.
    VersionGet,
    /// `metrics.get`.
    MetricsGet,
    /// `lifecycle.get`.
    LifecycleGet,
    /// `session.connect`.
    SessionConnect,
    /// `session.disconnect`.
    SessionDisconnect,
    /// `session.reconnect`.
    SessionReconnect,
    /// `net.up`.
    NetUp,
    /// `net.down`.
    NetDown,
    /// `event.subscribe`.
    EventSubscribe,
    /// `event.unsubscribe`.
    EventUnsubscribe,
    /// `host.network.changed`.
    HostNetworkChanged,
    /// `host.lifecycle`.
    HostLifecycle,
    /// `gateway.get`.
    GatewayGet,
    /// `gateway.peer.list`.
    GatewayPeerList,
    /// `gateway.grant.list`.
    GatewayGrantList,
    /// `pair.begin`.
    PairBegin,
    /// `pair.cancel`.
    PairCancel,
    /// `pair.status`.
    PairStatus,
    /// `peer.list`.
    PeerList,
    /// `peer.get`.
    PeerGet,
    /// `policy.get`.
    PolicyGet,
    /// `capability.get`.
    CapabilityGet,
    /// `path.probe`.
    PathProbe,
    /// `killswitch.get`.
    KillswitchGet,
    /// `killswitch.exempt.get`.
    KillswitchExemptGet,
    /// `settings.get`.
    SettingsGet,
    /// `settings.set`.
    SettingsSet,
    /// `diag.report`.
    DiagReport,
    /// `diag.bundle.create`.
    DiagBundleCreate,
    /// `diag.log.tail`.
    DiagLogTail,
    /// `diag.capture.set`.
    DiagCaptureSet,
    /// `pair.confirm`.
    PairConfirm,
    /// `device.revoke`.
    DeviceRevoke,
    /// `key.rotate`.
    KeyRotate,
    /// `killswitch.mode.set`.
    KillswitchModeSet,
    /// `killswitch.disarm.begin`.
    KillswitchDisarmBegin,
    /// `killswitch.disarm.commit`.
    KillswitchDisarmCommit,
    /// `dns.preference.set`.
    DnsPreferenceSet,
    /// `route.accept.set`.
    RouteAcceptSet,
    /// `exitnode.select`.
    ExitnodeSelect,
    /// `autostart.set`.
    AutostartSet,
    /// `gateway.set`.
    GatewaySet,
    /// `update.status`.
    UpdateStatus,
    /// `update.check`.
    UpdateCheck,
    /// `update.stage`.
    UpdateStage,
    /// `update.apply`.
    UpdateApply,
    /// `update.rollback`.
    UpdateRollback,
}

/// The operations that are performed.
pub open spec fn performed_commands() -> Seq<CoreCommand> {
    seq![
        CoreCommand::StatusGet,
        CoreCommand::SessionList,
        CoreCommand::SessionGet,
        CoreCommand::PathList,
        CoreCommand::VersionGet,
        CoreCommand::MetricsGet,
        CoreCommand::LifecycleGet,
        CoreCommand::SessionConnect,
        CoreCommand::SessionDisconnect,
        CoreCommand::SessionReconnect,
        CoreCommand::NetUp,
        CoreCommand::NetDown,
        CoreCommand::EventSubscribe,
        CoreCommand::EventUnsubscribe,
        CoreCommand::HostNetworkChanged,
        CoreCommand::HostLifecycle,
        CoreCommand::GatewayGet,
        CoreCommand::GatewayPeerList,
        CoreCommand::GatewayGrantList,
        CoreCommand::PairBegin,
        CoreCommand::PairCancel,
        CoreCommand::PairStatus,
    ]
}

/// The operations that are refused by name.
pub open spec fn refused_commands() -> Seq<CoreCommand> {
    seq![
        CoreCommand::PeerList,
        CoreCommand::PeerGet,
        CoreCommand::PolicyGet,
        CoreCommand::CapabilityGet,
        CoreCommand::PathProbe,
        CoreCommand::KillswitchGet,
        CoreCommand::KillswitchExemptGet,
        CoreCommand::SettingsGet,
        CoreCommand::SettingsSet,
        CoreCommand::DiagReport,
        CoreCommand::DiagBundleCreate,
        CoreCommand::DiagLogTail,
        CoreCommand::DiagCaptureSet,
        CoreCommand::PairConfirm,
        CoreCommand::DeviceRevoke,
        CoreCommand::KeyRotate,
        CoreCommand::KillswitchModeSet,
        CoreCommand::KillswitchDisarmBegin,
        CoreCommand::KillswitchDisarmCommit,
        CoreCommand::DnsPreferenceSet,
        CoreCommand::RouteAcceptSet,
        CoreCommand::ExitnodeSelect,
        CoreCommand::AutostartSet,
        CoreCommand::GatewaySet,
        CoreCommand::UpdateStatus,
        CoreCommand::UpdateCheck,
        CoreCommand::UpdateStage,
        CoreCommand::UpdateApply,
        CoreCommand::UpdateRollback,
    ]
}

/// Every operation of the catalogue.
pub open spec fn all_commands() -> Seq<CoreCommand> {
    performed_commands() + refused_commands()
}

impl CoreCommand {
    /// Every operation of the catalogue.
    #[must_use]
    pub fn all() -> (list: Vec<CoreCommand>)
        ensures
            list@ == all_commands(),
    {
        let list = vec![
            CoreCommand::StatusGet,
            CoreCommand::SessionList,
            CoreCommand::SessionGet,
            CoreCommand::PathList,
            CoreCommand::VersionGet,
            CoreCommand::MetricsGet,
            CoreCommand::LifecycleGet,
            CoreCommand::SessionConnect,
            CoreCommand::SessionDisconnect,
            CoreCommand::SessionReconnect,
            CoreCommand::NetUp,
            CoreCommand::NetDown,
            CoreCommand::EventSubscribe,
            CoreCommand::EventUnsubscribe,
            CoreCommand::HostNetworkChanged,
            CoreCommand::HostLifecycle,
            CoreCommand::GatewayGet,
            CoreCommand::GatewayPeerList,
            CoreCommand::GatewayGrantList,
            CoreCommand::PairBegin,
            CoreCommand::PairCancel,
            CoreCommand::PairStatus,
            CoreCommand::PeerList,
            CoreCommand::PeerGet,
            CoreCommand::PolicyGet,
            CoreCommand::CapabilityGet,
            CoreCommand::PathProbe,
            CoreCommand::KillswitchGet,
            CoreCommand::KillswitchExemptGet,
            CoreCommand::SettingsGet,
            CoreCommand::SettingsSet,
            CoreCommand::DiagReport,
            CoreCommand::DiagBundleCreate,
            CoreCommand::DiagLogTail,
            CoreCommand::DiagCaptureSet,
            CoreCommand::PairConfirm,
            CoreCommand::DeviceRevoke,
            CoreCommand::KeyRotate,
            CoreCommand::KillswitchModeSet,
            CoreCommand::KillswitchDisarmBegin,
            CoreCommand::KillswitchDisarmCommit,
            CoreCommand::DnsPreferenceSet,
            CoreCommand::RouteAcceptSet,
            CoreCommand::ExitnodeSelect,
            CoreCommand::AutostartSet,
            CoreCommand::GatewaySet,
            CoreCommand::UpdateStatus,
            CoreCommand::UpdateCheck,
            CoreCommand::UpdateStage,
            CoreCommand::UpdateApply,
            CoreCommand::UpdateRollback,
        ];
        assert(list@ =~= all_commands());
        list
    }
}

/// Why `peer.list` and `peer.get` are refused.
pub const WHY_PEERS: &'static str = "the cached TrustedPeer set is populated by twinvpn-cp-client, which has no \
    ControlTransport implementation anywhere in the workspace (W-12)";

/// Why `policy.get` is refused.
pub const WHY_POLICY: &'static str = "the signed PolicyBundle arrives over C2; see W-12";

/// Why `capability.get` is refused.
pub const WHY_CAPABILITY: &'static str = "the ADR-0018 F-9 vtable carries no capability probe, so the adapter cannot be asked \
    what it supports";

/// Why `path.probe` is refused.
pub const WHY_PATH_PROBE: &'static str = "protocol.md §10.4's probe is the AUTHENTICATED disco exchange, and twinvpn-path's \
    DiscoAuth has no binding: twinvpn-crypto exposes verification only. A keyless probe \
    is sent during establishment and marks a candidate `Probing`, never `Validated` — \
    offering that as `path.probe` would imply a validation this build cannot perform";

/// Why `killswitch.get` and `killswitch.exempt.get` are refused.
pub const WHY_KILLSWITCH_READ: &'static str = "the enforcement read-back exists on every adapter, and this operation is not wired \
    to NetworkConfig::installed_ruleset. It is refused rather than answered from the \
    agent's belief about what it configured, which is what ADR-0015 §11.6 rule 1 forbids";

/// Why `settings.get` and `settings.set` are refused.
pub const WHY_SETTINGS: &'static str = "local preferences (S-24) are vault-backed, and Core::open_store must have run; the \
    operation is refused rather than answered from memory";

/// Why `diag.report` is refused.
pub const WHY_DIAG_REPORT: &'static str = "ADR-0015 §11.8's eight parts include the enforcement snapshot, which is now readable \
    but not assembled here, and the candidate ledger, which needs a completed attempt";

/// Why these operations are refused.
pub const WHY_DIAG_FILES: &'static str = "a Tier-1 bundle is written to an agent-owned directory the vault vends (MI-D3), \
    which needs Core::open_store";

/// Why `pair.confirm` is refused.
pub const WHY_PAIR_CONFIRM: &'static str = "N-18 confirms a ceremony on both devices or on neither, so it needs BOTH \
    PairingAttestations, and this build can produce neither half. The peer's crosses the \
    rendezvous, which has no transport (W-12). This device's own has no emitter at all: \
    twinvpn_crypto::statements carries decode_pairing_attestation and \
    check_attestation_pair and NO emit_pairing_attestation, so there is nothing to sign \
    — a producer gap in a crate the pairing wiring may not write to, reported rather \
    than filled";

/// Why `device.revoke` and `key.rotate` are refused.
pub const WHY_OWNER_CEREMONY: &'static str = "an Owner-signed ceremony is committed through C1; see W-12";

/// Why `killswitch.mode.set` is refused.
pub const WHY_KILLSWITCH_MODE: &'static str = "MI-S3's max(current, requested) needs the current mode read back from the \
    enforcement layer. The posture read-back exists; the MODE does not — it is a \
    distinct fact from the BLOCKED/PROTECTED posture and no adapter reports it";

/// Why `killswitch.disarm.begin` and `killswitch.disarm.commit` are refused.
pub const WHY_DISARM: &'static str = "§11.14's ceremony needs ADR-0016's local authentication, which is a shell capability \
    with no ABI entry. Refusing is the safe direction: a disarm that silently succeeded \
    would clear the latch";

/// Why these operations are refused.
pub const WHY_PREFERENCES: &'static str = "each is a preference WITHIN a signed policy (MI-S4), and the policy arrives over C2; \
    see W-12";

/// Why `autostart.set` is refused.
pub const WHY_AUTOSTART: &'static str = "autostart is a durable local preference; see settings.set";

/// Why `gateway.set` is refused.
pub const WHY_GATEWAY_SET: &'static str = "ADR-0013 MG-15 refuses an over-committed configuration AT CONFIGURATION TIME, which \
    needs a durable store for the ceiling and a measurement of available memory; \
    Core::open_store must have run and no memory probe exists at the seam. Accepting it \
    in memory would move MG-15's refusal to the moment the last peer connects";

/// Why these operations are refused.
pub const WHY_UPDATES: &'static str = "ADR-0021 owns artifact delivery and this wave built none of it. The rollback floor \
    (S-23) is the only half the core owns and it has no store to read it from";

/// Whether this build performs an operation, and if not, why.
#[derive(Debug, Clone, Copy, PartialEq, Eq)]
pub enum Disposition {
    /// The operation is performed.
    Executes,
    /// The operation is refused by name.
    NotWired {
        /// The registered code the refusal carries.
        code: ReasonCode,
        /// What is missing, in one line.
        why: &'static str,
    },
}

impl Disposition {
    /// Whether this build performs the operation.
    #[must_use]
    pub fn executes(self) -> (b: bool)
        ensures
            b == (self is Executes),
    {
        matches!(self, Disposition::Executes)
    }
}

/// What this build does with an operation.
pub open spec fn disposed(op: CoreCommand) -> Disposition {
    match op {
        CoreCommand::StatusGet
        | CoreCommand::SessionList
        | CoreCommand::SessionGet
        | CoreCommand::PathList
        | CoreCommand::VersionGet
        | CoreCommand::MetricsGet
        | CoreCommand::LifecycleGet
        | CoreCommand::SessionConnect
        | CoreCommand::SessionDisconnect
        | CoreCommand::SessionReconnect
        | CoreCommand::NetUp
        | CoreCommand::NetDown
        | CoreCommand::EventSubscribe
        | CoreCommand::EventUnsubscribe
        | CoreCommand::HostNetworkChanged
        | CoreCommand::HostLifecycle
        | CoreCommand::GatewayGet
        | CoreCommand::GatewayPeerList
        | CoreCommand::GatewayGrantList
        | CoreCommand::PairBegin
        | CoreCommand::PairCancel
        | CoreCommand::PairStatus => Disposition::Executes,
        CoreCommand::PeerList
        | CoreCommand::PeerGet => Disposition::NotWired {
            code: ReasonCode::ControlUnreachable,
            why: WHY_PEERS,
        },
        CoreCommand::PolicyGet => Disposition::NotWired {
            code: ReasonCode::ControlUnreachable,
            why: WHY_POLICY,
        },
        CoreCommand::CapabilityGet => Disposition::NotWired {
            code: ReasonCode::PlatformAdapterUnavailable,
            why: WHY_CAPABILITY,
        },
        CoreCommand::PathProbe => Disposition::NotWired {
            code: ReasonCode::CryptoPeerKeyUnknown,
            why: WHY_PATH_PROBE,
        },
        CoreCommand::KillswitchGet
        | CoreCommand::KillswitchExemptGet => Disposition::NotWired {
            code: ReasonCode::PlatformAdapterUnavailable,
            why: WHY_KILLSWITCH_READ,
        },
        CoreCommand::SettingsGet
        | CoreCommand::SettingsSet => Disposition::NotWired {
            code: ReasonCode::StoreCustodyDegraded,
            why: WHY_SETTINGS,
        },
        CoreCommand::DiagReport => Disposition::NotWired {
            code: ReasonCode::PlatformAdapterUnavailable,
            why: WHY_DIAG_REPORT,
        },
        CoreCommand::DiagBundleCreate
        | CoreCommand::DiagLogTail
        | CoreCommand::DiagCaptureSet => Disposition::NotWired {
            code: ReasonCode::StoreCustodyDegraded,
            why: WHY_DIAG_FILES,
        },
        CoreCommand::PairConfirm => Disposition::NotWired {
            code: ReasonCode::ControlUnreachable,
            why: WHY_PAIR_CONFIRM,
        },
        CoreCommand::DeviceRevoke
        | CoreCommand::KeyRotate => Disposition::NotWired {
            code: ReasonCode::ControlUnreachable,
            why: WHY_OWNER_CEREMONY,
        },
        CoreCommand::KillswitchModeSet => Disposition::NotWired {
            code: ReasonCode::PlatformAdapterUnavailable,
            why: WHY_KILLSWITCH_MODE,
        },
        CoreCommand::KillswitchDisarmBegin
        | CoreCommand::KillswitchDisarmCommit => Disposition::NotWired {
            code: ReasonCode::MgmtDisarmRequiresLocalAuth,
            why: WHY_DISARM,
        },
        CoreCommand::DnsPreferenceSet
        | CoreCommand::RouteAcceptSet
        | CoreCommand::ExitnodeSelect => Disposition::NotWired {
            code: ReasonCode::ControlUnreachable,
            why: WHY_PREFERENCES,
        },
        CoreCommand::AutostartSet => Disposition::NotWired {
            code: ReasonCode::StoreCustodyDegraded,
            why: WHY_AUTOSTART,
        },
        CoreCommand::GatewaySet => Disposition::NotWired {
            code: ReasonCode::StoreCustodyDegraded,
            why: WHY_GATEWAY_SET,
        },
        CoreCommand::UpdateStatus
        | CoreCommand::UpdateCheck
        | CoreCommand::UpdateStage
        | CoreCommand::UpdateApply
        | CoreCommand::UpdateRollback => Disposition::NotWired {
            code: ReasonCode::UpdateApplyWindowExceeded,
            why: WHY_UPDATES,
        },
    }
}

/// What this build does with an operation: one arm for each, and no wildcard.
#[must_use]
pub fn disposition(op: CoreCommand) -> (d: Disposition)
    ensures
        d == disposed(op),
{
    match op {
        CoreCommand::StatusGet
        | CoreCommand::SessionList
        | CoreCommand::SessionGet
        | CoreCommand::PathList
        | CoreCommand::VersionGet
        | CoreCommand::MetricsGet
        | CoreCommand::LifecycleGet
        | CoreCommand::SessionConnect
        | CoreCommand::SessionDisconnect
        | CoreCommand::SessionReconnect
        | CoreCommand::NetUp
        | CoreCommand::NetDown
        | CoreCommand::EventSubscribe
        | CoreCommand::EventUnsubscribe
        | CoreCommand::HostNetworkChanged
        | CoreCommand::HostLifecycle
        | CoreCommand::GatewayGet
        | CoreCommand::GatewayPeerList
        | CoreCommand::GatewayGrantList
        | CoreCommand::PairBegin
        | CoreCommand::PairCancel
        | CoreCommand::PairStatus => Disposition::Executes,
        CoreCommand::PeerList
        | CoreCommand::PeerGet => Disposition::NotWired {
            code: ReasonCode::ControlUnreachable,
            why: WHY_PEERS,
        },
        CoreCommand::PolicyGet => Disposition::NotWired {
            code: ReasonCode::ControlUnreachable,
            why: WHY_POLICY,
        },
        CoreCommand::CapabilityGet => Disposition::NotWired {
            code: ReasonCode::PlatformAdapterUnavailable,
            why: WHY_CAPABILITY,
        },
        CoreCommand::PathProbe => Disposition::NotWired {
            code: ReasonCode::CryptoPeerKeyUnknown,
            why: WHY_PATH_PROBE,
        },
        CoreCommand::KillswitchGet
        | CoreCommand::KillswitchExemptGet => Disposition::NotWired {
            code: ReasonCode::PlatformAdapterUnavailable,
            why: WHY_KILLSWITCH_READ,
        },
        CoreCommand::SettingsGet
        | CoreCommand::SettingsSet => Disposition::NotWired {
            code: ReasonCode::StoreCustodyDegraded,
            why: WHY_SETTINGS,
        },
        CoreCommand::DiagReport => Disposition::NotWired {
            code: ReasonCode::PlatformAdapterUnavailable,
            why: WHY_DIAG_REPORT,
        },
        CoreCommand::DiagBundleCreate
        | CoreCommand::DiagLogTail
        | CoreCommand::DiagCaptureSet => Disposition::NotWired {
            code: ReasonCode::StoreCustodyDegraded,
            why: WHY_DIAG_FILES,
        },
        CoreCommand::PairConfirm => Disposition::NotWired {
            code: ReasonCode::ControlUnreachable,
            why: WHY_PAIR_CONFIRM,
        },
        CoreCommand::DeviceRevoke
        | CoreCommand::KeyRotate => Disposition::NotWired {
            code: ReasonCode::ControlUnreachable,
            why: WHY_OWNER_CEREMONY,
        },
        CoreCommand::KillswitchModeSet => Disposition::NotWired {
            code: ReasonCode::PlatformAdapterUnavailable,
            why: WHY_KILLSWITCH_MODE,
        },
        CoreCommand::KillswitchDisarmBegin
        | CoreCommand::KillswitchDisarmCommit => Disposition::NotWired {
            code: ReasonCode::MgmtDisarmRequiresLocalAuth,
            why: WHY_DISARM,
        },
        CoreCommand::DnsPreferenceSet
        | CoreCommand::RouteAcceptSet
        | CoreCommand::ExitnodeSelect => Disposition::NotWired {
            code: ReasonCode::ControlUnreachable,
            why: WHY_PREFERENCES,
        },
        CoreCommand::AutostartSet => Disposition::NotWired {
            code: ReasonCode::StoreCustodyDegraded,
            why: WHY_AUTOSTART,
        },
        CoreCommand::GatewaySet => Disposition::NotWired {
            code: ReasonCode::StoreCustodyDegraded,
            why: WHY_GATEWAY_SET,
        },
        CoreCommand::UpdateStatus
        | CoreCommand::UpdateCheck
        | CoreCommand::UpdateStage
        | CoreCommand::UpdateApply
        | CoreCommand::UpdateRollback => Disposition::NotWired {
            code: ReasonCode::UpdateApplyWindowExceeded,
            why: WHY_UPDATES,
        },
    }
}

/// A refused operation, its code and its reason.
pub type Refused = (CoreCommand, ReasonCode, &'static str);

/// The refusals of a list of operations, in order.
pub open spec fn refusals(ops: Seq<CoreCommand>) -> Seq<Refused>
    decreases ops.len(),
{
    if ops.len() == 0 {
        Seq::empty()
    } else {
        let rest = refusals(ops.drop_last());
        match disposed(ops.last()) {
            Disposition::NotWired { code, why } => rest.push((ops.last(), code, why)),
            Disposition::Executes => rest,
        }
    }
}

/// The operations of a list that are performed, in order.
pub open spec fn performed(ops: Seq<CoreCommand>) -> Seq<CoreCommand>
    decreases ops.len(),
{
    if ops.len() == 0 {
        Seq::empty()
    } else {
        let rest = performed(ops.drop_last());
        if disposed(ops.last()) is Executes {
            rest.push(ops.last())
        } else {
            rest
        }
    }
}

/// Every operation this build refuses, with its code and its reason.
#[must_use]
pub fn not_wired() -> (list: Vec<Refused>)
    ensures
        list@ == refusals(all_commands()),
{
    let all = CoreCommand::all();
    let mut list: Vec<Refused> = Vec::new();
    let mut i: usize = 0;
    assert(all@.take(0) =~= Seq::<CoreCommand>::empty());
    while i < all.len()
        invariant
            i <= all@.len(),
            list@ == refusals(all@.take(i as int)),
        decreases all@.len() - i,
    {
        match disposition(all[i]) {
            Disposition::NotWired { code, why } => {
                list.push((all[i], code, why));
            },
            Disposition::Executes => {},
        }
        assert(all@.take(i + 1).drop_last() =~= all@.take(i as int));
        i += 1;
    }
    assert(all@.take(all@.len() as int) =~= all@);
    list
}

/// Every operation this build performs.
#[must_use]
pub fn executed() -> (list: Vec<CoreCommand>)
    ensures
        list@ == performed(all_commands()),
{
    let all = CoreCommand::all();
    let mut list: Vec<CoreCommand> = Vec::new();
    let mut i: usize = 0;
    assert(all@.take(0) =~= Seq::<CoreCommand>::empty());
    while i < all.len()
        invariant
            i <= all@.len(),
            list@ == performed(all@.take(i as int)),
        decreases all@.len() - i,
    {
        if disposition(all[i]).executes() {
            list.push(all[i]);
        }
        assert(all@.take(i + 1).drop_last() =~= all@.take(i as int));
        i += 1;
    }
    assert(all@.take(all@.len() as int) =~= all@);
    list
}

/// Where an operation stands in the catalogue.
pub open spec fn place(op: CoreCommand) -> int {
    match op {
        CoreCommand::StatusGet => 0,
        CoreCommand::SessionList => 1,
        CoreCommand::SessionGet => 2,
        CoreCommand::PathList => 3,
        CoreCommand::VersionGet => 4,
        CoreCommand::MetricsGet => 5,
        CoreCommand::LifecycleGet => 6,
        CoreCommand::SessionConnect => 7,
        CoreCommand::SessionDisconnect => 8,
        CoreCommand::SessionReconnect => 9,
        CoreCommand::NetUp => 10,
        CoreCommand::NetDown => 11,
        CoreCommand::EventSubscribe => 12,
        CoreCommand::EventUnsubscribe => 13,
        CoreCommand::HostNetworkChanged => 14,
        CoreCommand::HostLifecycle => 15,
        CoreCommand::GatewayGet => 16,
        CoreCommand::GatewayPeerList => 17,
        CoreCommand::GatewayGrantList => 18,
        CoreCommand::PairBegin => 19,
        CoreCommand::PairCancel => 20,
        CoreCommand::PairStatus => 21,
        CoreCommand::PeerList => 22,
        CoreCommand::PeerGet => 23,
        CoreCommand::PolicyGet => 24,
        CoreCommand::CapabilityGet => 25,
        CoreCommand::PathProbe => 26,
        CoreCommand::KillswitchGet => 27,
        CoreCommand::KillswitchExemptGet => 28,
        CoreCommand::SettingsGet => 29,
        CoreCommand::SettingsSet => 30,
        CoreCommand::DiagReport => 31,
        CoreCommand::DiagBundleCreate => 32,
        CoreCommand::DiagLogTail => 33,
        CoreCommand::DiagCaptureSet => 34,
        CoreCommand::PairConfirm => 35,
        CoreCommand::DeviceRevoke => 36,
        CoreCommand::KeyRotate => 37,
        CoreCommand::KillswitchModeSet => 38,
        CoreCommand::KillswitchDisarmBegin => 39,
        CoreCommand::KillswitchDisarmCommit => 40,
        CoreCommand::DnsPreferenceSet => 41,
        CoreCommand::RouteAcceptSet => 42,
        CoreCommand::ExitnodeSelect => 43,
        CoreCommand::AutostartSet => 44,
        CoreCommand::GatewaySet => 45,
        CoreCommand::UpdateStatus => 46,
        CoreCommand::UpdateCheck => 47,
        CoreCommand::UpdateStage => 48,
        CoreCommand::UpdateApply => 49,
        CoreCommand::UpdateRollback => 50,
    }
}

/// Every operation stands in the catalogue.
pub proof fn the_catalogue_is_complete(op: CoreCommand)
    ensures
        all_commands().contains(op),
        0 <= place(op) < all_commands().len(),
        all_commands()[place(op)] == op,
{
    let all = all_commands();
    match op {
        CoreCommand::StatusGet => {
            assert(all[0] == op);
        },
        CoreCommand::SessionList => {
            assert(all[1] == op);
        },
        CoreCommand::SessionGet => {
            assert(all[2] == op);
        },
        CoreCommand::PathList => {
            assert(all[3] == op);
        },
        CoreCommand::VersionGet => {
            assert(all[4] == op);
        },
        CoreCommand::MetricsGet => {
            assert(all[5] == op);
        },
        CoreCommand::LifecycleGet => {
            assert(all[6] == op);
        },
        CoreCommand::SessionConnect => {
            assert(all[7] == op);
        },
        CoreCommand::SessionDisconnect => {
            assert(all[8] == op);
        },
        CoreCommand::SessionReconnect => {
            assert(all[9] == op);
        },
        CoreCommand::NetUp => {
            assert(all[10] == op);
        },
        CoreCommand::NetDown => {
            assert(all[11] == op);
        },
        CoreCommand::EventSubscribe => {
            assert(all[12] == op);
        },
        CoreCommand::EventUnsubscribe => {
            assert(all[13] == op);
        },
        CoreCommand::HostNetworkChanged => {
            assert(all[14] == op);
        },
        CoreCommand::HostLifecycle => {
            assert(all[15] == op);
        },
        CoreCommand::GatewayGet => {
            assert(all[16] == op);
        },
        CoreCommand::GatewayPeerList => {
            assert(all[17] == op);
        },
        CoreCommand::GatewayGrantList => {
            assert(all[18] == op);
        },
        CoreCommand::PairBegin => {
            assert(all[19] == op);
        },
        CoreCommand::PairCancel => {
            assert(all[20] == op);
        },
        CoreCommand::PairStatus => {
            assert(all[21] == op);
        },
        CoreCommand::PeerList => {
            assert(all[22] == op);
        },
        CoreCommand::PeerGet => {
            assert(all[23] == op);
        },
        CoreCommand::PolicyGet => {
            assert(all[24] == op);
        },
        CoreCommand::CapabilityGet => {
            assert(all[25] == op);
        },
        CoreCommand::PathProbe => {
            assert(all[26] == op);
        },
        CoreCommand::KillswitchGet => {
            assert(all[27] == op);
        },
        CoreCommand::KillswitchExemptGet => {
            assert(all[28] == op);
        },
        CoreCommand::SettingsGet => {
            assert(all[29] == op);
        },
        CoreCommand::SettingsSet => {
            assert(all[30] == op);
        },
        CoreCommand::DiagReport => {
            assert(all[31] == op);
        },
        CoreCommand::DiagBundleCreate => {
            assert(all[32] == op);
        },
        CoreCommand::DiagLogTail => {
            assert(all[33] == op);
        },
        CoreCommand::DiagCaptureSet => {
            assert(all[34] == op);
        },
        CoreCommand::PairConfirm => {
            assert(all[35] == op);
        },
        CoreCommand::DeviceRevoke => {
            assert(all[36] == op);
        },
        CoreCommand::KeyRotate => {
            assert(all[37] == op);
        },
        CoreCommand::KillswitchModeSet => {
            assert(all[38] == op);
        },
        CoreCommand::KillswitchDisarmBegin => {
            assert(all[39] == op);
        },
        CoreCommand::KillswitchDisarmCommit => {
            assert(all[40] == op);
        },
        CoreCommand::DnsPreferenceSet => {
            assert(all[41] == op);
        },
        CoreCommand::RouteAcceptSet => {
            assert(all[42] == op);
        },
        CoreCommand::ExitnodeSelect => {
            assert(all[43] == op);
        },
        CoreCommand::AutostartSet => {
            assert(all[44] == op);
        },
        CoreCommand::GatewaySet => {
            assert(all[45] == op);
        },
        CoreCommand::UpdateStatus => {
            assert(all[46] == op);
        },
        CoreCommand::UpdateCheck => {
            assert(all[47] == op);
        },
        CoreCommand::UpdateStage => {
            assert(all[48] == op);
        },
        CoreCommand::UpdateApply => {
            assert(all[49] == op);
        },
        CoreCommand::UpdateRollback => {
            assert(all[50] == op);
        },
    }
}

/// Performed and refused operations together are the whole list, and none is both.
pub proof fn every_operation_is_performed_or_refused(ops: Seq<CoreCommand>)
    ensures
        performed(ops).len() + refusals(ops).len() == ops.len(),
        forall|op: CoreCommand|
            ops.contains(op) ==> (performed(ops).contains(op) <==> #[trigger] disposed(
                op,
            ) is Executes),
    decreases ops.len(),
{
    if ops.len() > 0 {
        let front = ops.drop_last();
        let last = ops.last();
        every_operation_is_performed_or_refused(front);
        assert(ops =~= front.push(last));
        assert forall|op: CoreCommand| ops.contains(op) implies (performed(ops).contains(op)
            <==> #[trigger] disposed(op) is Executes) by {
            if performed(ops).contains(op) {
                only_performed_is_listed(ops, op);
            }
            if disposed(op) is Executes {
                if op == last {
                    let n = performed(front).len() as int;
                    assert(performed(ops)[n] == op);
                } else {
                    let i = choose|i: int| 0 <= i < ops.len() && ops[i] == op;
                    assert(front[i] == op);
                    assert(front.contains(op));
                    let j = choose|j: int|
                        0 <= j < performed(front).len() && performed(front)[j] == op;
                    assert(performed(ops)[j] == op);
                }
            }
        }
    }
}

proof fn only_performed_is_listed(ops: Seq<CoreCommand>, op: CoreCommand)
    requires
        performed(ops).contains(op),
    ensures
        disposed(op) is Executes,
    decreases ops.len(),
{
    if ops.len() > 0 {
        let j = choose|j: int| 0 <= j < performed(ops).len() && performed(ops)[j] == op;
        if j < performed(ops.drop_last()).len() {
            assert(performed(ops.drop_last())[j] == op);
            only_performed_is_listed(ops.drop_last(), op);
        }
    }
}

proof fn performed_append(a: Seq<CoreCommand>, b: Seq<CoreCommand>)
    ensures
        performed(a + b) == performed(a) + performed(b),
    decreases b.len(),
{
    if b.len() == 0 {
        assert(a + b =~= a);
        assert(performed(a) + performed(b) =~= performed(a));
    } else {
        performed_append(a, b.drop_last());
        assert((a + b).drop_last() =~= a + b.drop_last());
        assert(performed(a + b) =~= performed(a) + performed(b));
    }
}

proof fn all_performed(ops: Seq<CoreCommand>)
    requires
        forall|i: int| 0 <= i < ops.len() ==> disposed(#[trigger] ops[i]) is Executes,
    ensures
        performed(ops) == ops,
    decreases ops.len(),
{
    if ops.len() > 0 {
        all_performed(ops.drop_last());
        assert(ops =~= ops.drop_last().push(ops.last()));
    } else {
        assert(performed(ops) =~= ops);
    }
}

proof fn none_performed(ops: Seq<CoreCommand>)
    requires
        forall|i: int| 0 <= i < ops.len() ==> !(disposed(#[trigger] ops[i]) is Executes),
    ensures
        performed(ops) == Seq::<CoreCommand>::empty(),
    decreases ops.len(),
{
    if ops.len() > 0 {
        none_performed(ops.drop_last());
    }
}

/// Of the 51 operations of the catalogue 22 are performed and 29 are refused.
pub proof fn the_catalogue_is_divided()
    ensures
        performed(all_commands()) == performed_commands(),
        performed(all_commands()).len() == 22,
        refusals(all_commands()).len() == 29,
        all_commands().len() == 51,
{
    performed_append(performed_commands(), refused_commands());
    all_performed(performed_commands());
    none_performed(refused_commands());
    assert(performed(all_commands()) =~= performed_commands());
    every_operation_is_performed_or_refused(all_commands());
}

/// A character that shows as space: one with the White_Space property.
pub open spec fn is_space(c: char) -> bool {
    ||| '\u{9}' <= c <= '\u{d}'
    ||| c == ' '
    ||| c == '\u{85}'
    ||| c == '\u{a0}'
    ||| c == '\u{1680}'
    ||| '\u{2000}' <= c <= '\u{200a}'
    ||| c == '\u{2028}'
    ||| c == '\u{2029}'
    ||| c == '\u{202f}'
    ||| c == '\u{205f}'
    ||| c == '\u{3000}'
}

/// A text says nothing: it is empty, or all of it is space.
pub open spec fn blank(t: Seq<char>) -> bool {
    forall|i: int| 0 <= i < t.len() ==> is_space(#[trigger] t[i])
}

proof fn no_reason_is_blank(op: CoreCommand)
    ensures
        disposed(op) matches Disposition::NotWired { why, .. } ==> !blank(why@),
{
    reveal_strlit(
        "the cached TrustedPeer set is populated by twinvpn-cp-client, which has no \
        ControlTransport implementation anywhere in the workspace (W-12)",
    );
    reveal_strlit(
        "the signed PolicyBundle arrives over C2; see W-12",
    );
    reveal_strlit(
        "the ADR-0018 F-9 vtable carries no capability probe, so the adapter cannot be asked \
        what it supports",
    );
    reveal_strlit(
        "protocol.md §10.4's probe is the AUTHENTICATED disco exchange, and twinvpn-path's \
        DiscoAuth has no binding: twinvpn-crypto exposes verification only. A keyless probe \
        is sent during establishment and marks a candidate `Probing`, never `Validated` — \
        offering that as `path.probe` would imply a validation this build cannot perform",
    );
    reveal_strlit(
        "the enforcement read-back exists on every adapter, and this operation is not wired \
        to NetworkConfig::installed_ruleset. It is refused rather than answered from the \
        agent's belief about what it configured, which is what ADR-0015 §11.6 rule 1 forbids",
    );
    reveal_strlit(
        "local preferences (S-24) are vault-backed, and Core::open_store must have run; the \
        operation is refused rather than answered from memory",
    );
    reveal_strlit(
        "ADR-0015 §11.8's eight parts include the enforcement snapshot, which is now readable \
        but not assembled here, and the candidate ledger, which needs a completed attempt",
    );
    reveal_strlit(
        "a Tier-1 bundle is written to an agent-owned directory the vault vends (MI-D3), \
        which needs Core::open_store",
    );
    reveal_strlit(
        "N-18 confirms a ceremony on both devices or on neither, so it needs BOTH \
        PairingAttestations, and this build can produce neither half. The peer's crosses the \
        rendezvous, which has no transport (W-12). This device's own has no emitter at all: \
        twinvpn_crypto::statements carries decode_pairing_attestation and \
        check_attestation_pair and NO emit_pairing_attestation, so there is nothing to sign \
        — a producer gap in a crate the pairing wiring may not write to, reported rather \
        than filled",
    );
    reveal_strlit(
        "an Owner-signed ceremony is committed through C1; see W-12",
    );
    reveal_strlit(
        "MI-S3's max(current, requested) needs the current mode read back from the \
        enforcement layer. The posture read-back exists; the MODE does not — it is a \
        distinct fact from the BLOCKED/PROTECTED posture and no adapter reports it",
    );
    reveal_strlit(
        "§11.14's ceremony needs ADR-0016's local authentication, which is a shell capability \
        with no ABI entry. Refusing is the safe direction: a disarm that silently succeeded \
        would clear the latch",
    );
    reveal_strlit(
        "each is a preference WITHIN a signed policy (MI-S4), and the policy arrives over C2; \
        see W-12",
    );
    reveal_strlit(
        "autostart is a durable local preference; see settings.set",
    );
    reveal_strlit(
        "ADR-0013 MG-15 refuses an over-committed configuration AT CONFIGURATION TIME, which \
        needs a durable store for the ceiling and a measurement of available memory; \
        Core::open_store must have run and no memory probe exists at the seam. Accepting it \
        in memory would move MG-15's refusal to the moment the last peer connects",
    );
    reveal_strlit(
        "ADR-0021 owns artifact delivery and this wave built none of it. The rollback floor \
        (S-23) is the only half the core owns and it has no store to read it from",
    );
    if let Disposition::NotWired { why, .. } = disposed(op) {
        assert(!is_space(why@[0]));
    }
}

proof fn a_place_is_the_operations(i: int)
    requires
        0 <= i < all_commands().len(),
    ensures
        place(all_commands()[i]) == i,
{
    let first = performed_commands();
    let rest = refused_commands();
    assert(first.len() == 22);
    if i < first.len() {
        assert(all_commands()[i] == first[i]);
    } else {
        assert(all_commands()[i] == rest[i - 22]);
    }
}

proof fn a_refusal_comes_from_the_list(ops: Seq<CoreCommand>, i: int) -> (a: int)
    requires
        0 <= i < refusals(ops).len(),
    ensures
        0 <= a < ops.len(),
        ops[a] == refusals(ops)[i].0,
        disposed(ops[a]) == (Disposition::NotWired {
            code: refusals(ops)[i].1,
            why: refusals(ops)[i].2,
        }),
    decreases ops.len(),
{
    let front = ops.drop_last();
    if i < refusals(front).len() {
        assert(refusals(ops)[i] == refusals(front)[i]);
        a_refusal_comes_from_the_list(front, i)
    } else {
        ops.len() - 1
    }
}

proof fn refusals_keep_the_order(ops: Seq<CoreCommand>, i: int, j: int) -> (at: (int, int))
    requires
        0 <= i < j < refusals(ops).len(),
    ensures
        0 <= at.0 < at.1 < ops.len(),
        ops[at.0] == refusals(ops)[i].0,
        ops[at.1] == refusals(ops)[j].0,
    decreases ops.len(),
{
    let front = ops.drop_last();
    assert(refusals(ops)[i] == refusals(front)[i]);
    if j < refusals(front).len() {
        assert(refusals(ops)[j] == refusals(front)[j]);
        refusals_keep_the_order(front, i, j)
    } else {
        (a_refusal_comes_from_the_list(front, i), ops.len() - 1)
    }
}

proof fn a_refused_operation_is_listed(ops: Seq<CoreCommand>, op: CoreCommand)
    requires
        ops.contains(op),
        disposed(op) is NotWired,
    ensures
        exists|i: int| 0 <= i < refusals(ops).len() && (#[trigger] refusals(ops)[i]).0 == op,
    decreases ops.len(),
{
    let front = ops.drop_last();
    if ops.last() == op {
        assert(refusals(ops).last().0 == op);
    } else {
        let a = choose|a: int| 0 <= a < ops.len() && ops[a] == op;
        assert(front[a] == op);
        a_refused_operation_is_listed(front, op);
        let i = choose|i: int|
            0 <= i < refusals(front).len() && (#[trigger] refusals(front)[i]).0 == op;
        assert(refusals(ops)[i] == refusals(front)[i]);
    }
}

/// The operation is refused with this code and this reason.
pub open spec fn is_refused_with(refused: Refused) -> bool {
    disposed(refused.0) == (Disposition::NotWired { code: refused.1, why: refused.2 })
}

/// The code's text is looked up as that code, and never as another or as none.
pub open spec fn is_found_again(code: ReasonCode, registered: Seq<&'static str>) -> bool {
    forall|found: Option<ReasonCode>| #[trigger]
        looked_up(code.name(), registered, found) <==> found == Some(code)
}

/// Every refusal states a reason and a registered code. Of each that is listed the
/// operation is refused with that code and that reason; the reason is not blank; the code
/// is found again by its text, whatever is registered besides; and no operation is listed
/// twice, since they stand in the order of the catalogue.
pub proof fn every_refusal_states_a_reason_and_a_registered_code(registered: Seq<&'static str>)
    ensures
        forall|i: int|
            0 <= i < refusals(all_commands()).len() ==> is_refused_with(
                #[trigger] refusals(all_commands())[i],
            ),
        forall|i: int|
            0 <= i < refusals(all_commands()).len() ==> !blank(
                (#[trigger] refusals(all_commands())[i]).2@,
            ),
        forall|i: int|
            0 <= i < refusals(all_commands()).len() ==> is_found_again(
                (#[trigger] refusals(all_commands())[i]).1,
                registered,
            ),
        forall|i: int, j: int|
            0 <= i < j < refusals(all_commands()).len() ==> (#[trigger] refusals(
                all_commands(),
            )[i]).0 != (#[trigger] refusals(all_commands())[j]).0,
        forall|i: int, j: int|
            0 <= i < j < refusals(all_commands()).len() ==> place(
                (#[trigger] refusals(all_commands())[i]).0,
            ) < place((#[trigger] refusals(all_commands())[j]).0),
{
    let list = refusals(all_commands());
    assert forall|i: int| 0 <= i < list.len() implies is_refused_with(#[trigger] list[i]) && !blank(
        list[i].2@,
    ) && is_found_again(list[i].1, registered) by {
        let _ = a_refusal_comes_from_the_list(all_commands(), i);
        let (op, code, why) = list[i];
        no_reason_is_blank(op);
        assert(code.own());
        assert(looked_up(code.name(), registered, Some(code)));
        assert forall|found: Option<ReasonCode>| #[trigger]
            looked_up(code.name(), registered, found) implies found == Some(code) by {
            a_text_stands_for_one_code(code.name(), registered, Some(code), found);
        }
    }
    assert forall|i: int, j: int| 0 <= i < j < list.len() implies place((#[trigger] list[i]).0)
        < place((#[trigger] list[j]).0) by {
        let at = refusals_keep_the_order(all_commands(), i, j);
        a_place_is_the_operations(at.0);
        a_place_is_the_operations(at.1);
    }
}

/// Exactly the operations that are not performed are listed as refused.
pub proof fn what_is_not_performed_is_refused(op: CoreCommand)
    ensures
        !(disposed(op) is Executes) <==> exists|i: int|
            0 <= i < refusals(all_commands()).len() && (#[trigger] refusals(all_commands())[i]).0
                == op,
{
    let list = refusals(all_commands());
    if disposed(op) is NotWired {
        the_catalogue_is_complete(op);
        a_refused_operation_is_listed(all_commands(), op);
    }
    if exists|i: int| 0 <= i < list.len() && (#[trigger] list[i]).0 == op {
        let i = choose|i: int| 0 <= i < list.len() && (#[trigger] list[i]).0 == op;
        let _ = a_refusal_comes_from_the_list(all_commands(), i);
    }
}

/// A submitted operation.
#[derive(Debug)]
pub struct Submission {
    /// Which operation.
    pub op: CoreCommand,
    /// Its parameters, encoded.
    pub params: Vec<u8>,
    /// The key that makes a retry the same request.
    pub idempotency_key: Option<Vec<u8>>,
    /// The version that the caller saw.
    pub if_version: Option<u64>,
    /// The principal that submitted it, or `None` for an internal cause.
    pub actor_principal: Option<String>,
}

impl Submission {
    /// An operation with nothing else.
    #[must_use]
    pub fn bare(op: CoreCommand) -> (s: Self)
        ensures
            s.op == op,
            s.params@ == Seq::<u8>::empty(),
            s.idempotency_key is None,
            s.if_version is None,
            s.actor_principal is None,
    {
        Submission {
            op,
            params: Vec::new(),
            idempotency_key: None,
            if_version: None,
            actor_principal: None,
        }
    }
}

/// What an executed operation produced. It is not printable: what only the caller is told
/// may be a secret.
pub struct Outcome {
    /// The encoded result, or empty where the operation has no body.
    pub result: Vec<u8>,
    /// How many observable effects the operation had: a state change, an adapter
    /// call or a published event each.
    pub effects: u32,
    /// What only the caller is told, and the event stream never.
    pub response: Option<Vec<u8>>,
}

impl Outcome {
    /// An outcome with a body and a stated effect count.
    #[must_use]
    pub fn new(result: Vec<u8>, effects: u32) -> (o: Self)
        ensures
            o == (Outcome { result, effects, response: None }),
    {
        Outcome { result, effects, response: None }
    }

    /// A read that produced a body. A read's effect is the read itself.
    #[must_use]
    pub fn read(result: Vec<u8>) -> (o: Self)
        ensures
            o == (Outcome { result, effects: 1, response: None }),
    {
        Outcome { result, effects: 1, response: None }
    }

    /// The same outcome, with what only the caller is told.
    #[must_use]
    pub fn responding(self, response: Option<Vec<u8>>) -> (o: Self)
        ensures
            o == (Outcome { response, ..self }),
    {
        Outcome { result: self.result, effects: self.effects, response }
    }
}

/// The lifecycle phase a `host.lifecycle` submission carries.
#[derive(Debug, Clone, Copy, PartialEq, Eq, Structural)]
pub enum Lifecycle {
    /// The host is about to sleep.
    Suspend,
    /// The host woke.
    Resume,
    /// The client went to the background.
    Background,
    /// The client came to the foreground.
    Foreground,
}

/// The phase a selector octet stands for.
pub open spec fn lifecycle_of(params: Seq<u8>) -> Option<Lifecycle> {
    if params.len() == 0 {
        None
    } else if params[0] == 1 {
        Some(Lifecycle::Suspend)
    } else if params[0] == 2 {
        Some(Lifecycle::Resume)
    } else if params[0] == 3 {
        Some(Lifecycle::Background)
    } else if params[0] == 4 {
        Some(Lifecycle::Foreground)
    } else {
        None
    }
}

impl Lifecycle {
    /// The selector octet.
    pub open spec fn selector(self) -> u8 {
        match self {
            Lifecycle::Suspend => 1,
            Lifecycle::Resume => 2,
            Lifecycle::Background => 3,
            Lifecycle::Foreground => 4,
        }
    }

    /// What the phase tells a session's machine.
    pub open spec fn told(self) -> Event {
        match self {
            Lifecycle::Suspend => Event::Suspend,
            Lifecycle::Resume => Event::Resume,
            Lifecycle::Background => Event::Background,
            Lifecycle::Foreground => Event::Foreground,
        }
    }

    /// Decodes the one-octet selector. An unrecognised value is `None` rather than a
    /// default: a default would wake a device that asked to sleep.
    #[must_use]
    pub fn from_params(params: &[u8]) -> (phase: Option<Self>)
        ensures
            phase == lifecycle_of(params@),
    {
        if params.len() == 0 {
            return None;
        }
        match params[0] {
            1 => Some(Lifecycle::Suspend),
            2 => Some(Lifecycle::Resume),
            3 => Some(Lifecycle::Background),
            4 => Some(Lifecycle::Foreground),
            _ => None,
        }
    }

    /// What the phase tells a session's machine.
    #[must_use]
    pub fn event(self) -> (e: Event)
        ensures
            e == self.told(),
    {
        match self {
            Lifecycle::Suspend => Event::Suspend,
            Lifecycle::Resume => Event::Resume,
            Lifecycle::Background => Event::Background,
            Lifecycle::Foreground => Event::Foreground,
        }
    }

    /// The selector octet, so a caller can build a submission without guessing.
    #[must_use]
    pub fn to_params(self) -> (b: u8)
        ensures
            b == self.selector(),
    {
        match self {
            Lifecycle::Suspend => 1,
            Lifecycle::Resume => 2,
            Lifecycle::Background => 3,
            Lifecycle::Foreground => 4,
        }
    }
}

/// A selector octet decodes to the phase it was written for, whatever follows it.
pub proof fn a_lifecycle_selector_round_trips(phase: Lifecycle, rest: Seq<u8>)
    ensures
        lifecycle_of(seq![phase.selector()] + rest) == Some(phase),
{
}

/// The peer a session-scoped submission names: its raw 32 octets, and anything else
/// is refused rather than truncated or padded.
#[must_use]
pub fn peer_from_params(params: &[u8]) -> (peer: Option<DeviceId>)
    ensures
        match peer {
            Some(id) => params@.len() == 32 && id.bytes@ == params@,
            None => params@.len() != 32,
        },
{
    match DeviceId::from_slice(params) {
        Ok(id) => Some(id),
        Err(_) => None,
    }
}

/// The operation is session-scoped.
pub open spec fn names_peer(op: CoreCommand) -> bool {
    op == CoreCommand::SessionConnect || op == CoreCommand::SessionGet || op
        == CoreCommand::SessionReconnect || op == CoreCommand::SessionDisconnect
}

/// Whether an operation is session-scoped, and so needs a peer.
#[must_use]
pub fn needs_peer(op: CoreCommand) -> (b: bool)
    ensures
        b == names_peer(op),
{
    matches!(
        op,
        CoreCommand::SessionConnect | CoreCommand::SessionGet | CoreCommand::SessionReconnect
            | CoreCommand::SessionDisconnect
    )
}

/// The parameters are what the operation requires.
pub open spec fn parameters_fit(op: CoreCommand, params: Seq<u8>) -> bool {
    &&& names_peer(op) ==> params.len() == 32
    &&& op == CoreCommand::HostLifecycle ==> lifecycle_of(params) is Some
    &&& op == CoreCommand::PairBegin ==> crate::pairing::ceremony_of(params) is Some
    &&& op == CoreCommand::PairCancel || op == CoreCommand::PairStatus ==> params.len()
        == PAIRING_ID_BYTES
}

/// The code a submission is refused with when it does not carry what the operation
/// requires. Checked before any work, so nothing is ever partially applied.
#[must_use]
pub fn missing_parameter(op: CoreCommand, submission: &Submission) -> (code: Option<ReasonCode>)
    ensures
        code == (if parameters_fit(op, submission.params@) {
            None
        } else {
            Some(ReasonCode::ProtoMalformedMessage)
        }),
{
    let params = submission.params.as_slice();
    if needs_peer(op) && peer_from_params(params).is_none() {
        return Some(ReasonCode::ProtoMalformedMessage);
    }
    if matches!(op, CoreCommand::HostLifecycle) && Lifecycle::from_params(params).is_none() {
        return Some(ReasonCode::ProtoMalformedMessage);
    }
    if matches!(op, CoreCommand::PairBegin) && Ceremony::from_params(params).is_none() {
        return Some(ReasonCode::ProtoMalformedMessage);
    }
    if matches!(op, CoreCommand::PairCancel | CoreCommand::PairStatus) && params.len()
        != PAIRING_ID_BYTES {
        return Some(ReasonCode::ProtoMalformedMessage);
    }
    None
}

} // verus!
