//! Enforcement: arming the host, swapping its rule set, and taking the tunnel down.
//!
//! Each run is told what came back of its last action and says what to do next. The
//! order is: the deny is live, the interface is created down, the link comes up, the
//! contract is applied as one transaction, the rule set is read back, and only then
//! is protection swapped in. Every failure tightens: a run never reports one before
//! it asked for the deny.

use vstd::prelude::*;

use crate::datapath::outcome::PlatformError;
use crate::planes::{lists_peers, DataPlaneView, PlanesModel};
use crate::reason::{Component, Diagnostic, Evidence, ReasonCode};
use crate::table::ascending;
use crate::types;
use crate::types::{DeviceId, IpAddr, IpPrefix, OverlayAddresses, PerFamily, TwinnetId};

verus! {

/// The overlay interface that the core programs.
pub const OVERLAY_INTERFACE: &'static str = "twin0";

/// The overlay MTU that the core programs: the IPv6 minimum.
pub const MTU: u32 = 1280;

/// A rule set of the host.
#[derive(Debug, Clone, Copy, PartialEq, Eq, Structural)]
pub enum Ruleset {
    /// Nothing leaves but what the deny exempts.
    Blocked,
    /// Traffic leaves through the tunnel.
    Protected,
}

/// What must hold before the host may be protected.
#[derive(Debug, Clone, Copy, PartialEq, Eq, Structural)]
pub struct ProtectedPreconditions {
    /// A path was validated in both directions, with authentication.
    pub path_validated: bool,
    /// The intended rules are installed for IPv4.
    pub ruleset_present_v4: bool,
    /// The intended rules are installed for IPv6.
    pub ruleset_present_v6: bool,
}

impl ProtectedPreconditions {
    /// All of them hold.
    pub open spec fn hold(self) -> bool {
        self.path_validated && self.ruleset_present_v4 && self.ruleset_present_v6
    }
}

/// An overlay interface.
#[derive(Debug, Clone, Copy, PartialEq, Eq, Structural)]
pub struct TunnelHandle(pub u64);

/// The enforcement state.
#[derive(Debug, Clone, Copy, PartialEq, Eq, Structural)]
pub struct Enforcement {
    /// The rule set that is wanted.
    pub desired: Ruleset,
    /// The generation the next contract gets.
    pub next_generation: u64,
    /// The overlay interface, once created.
    pub handle: Option<TunnelHandle>,
    /// The generation that is applied.
    pub applied: Option<u64>,
}

impl Default for Enforcement {
    /// Starts blocked, with no interface; the first contract is generation 1.
    fn default() -> (e: Self)
        ensures
            e == (Enforcement {
                desired: Ruleset::Blocked,
                next_generation: 1,
                handle: None,
                applied: None,
            }),
    {
        Enforcement { desired: Ruleset::Blocked, next_generation: 1, handle: None, applied: None }
    }
}

impl Enforcement {
    /// The rule set that is wanted.
    #[must_use]
    pub fn desired(&self) -> (r: Ruleset)
        ensures
            r == self.desired,
    {
        self.desired
    }

    /// The generation that is applied, if any.
    #[must_use]
    pub fn applied(&self) -> (g: Option<u64>)
        ensures
            g == self.applied,
    {
        self.applied
    }

    /// Whether an overlay interface exists.
    #[must_use]
    pub fn has_interface(&self) -> (b: bool)
        ensures
            b == (self.handle is Some),
    {
        self.handle.is_some()
    }

    /// The overlay interface, once created.
    #[must_use]
    pub fn handle(&self) -> (h: Option<TunnelHandle>)
        ensures
            h == self.handle,
    {
        self.handle
    }

    /// The rule set that the preconditions allow: protected only where all hold.
    pub open spec fn leaving(pre: ProtectedPreconditions) -> Ruleset {
        if pre.hold() {
            Ruleset::Protected
        } else {
            Ruleset::Blocked
        }
    }

    /// Leaves the deny where all preconditions hold, and keeps it where one fails.
    pub fn leave_blocked(&mut self, pre: ProtectedPreconditions) -> (r: Ruleset)
        ensures
            r == Enforcement::leaving(pre),
            *final(self) == (Enforcement { desired: r, ..*old(self) }),
    {
        let r = if pre.path_validated && pre.ruleset_present_v4 && pre.ruleset_present_v6 {
            Ruleset::Protected
        } else {
            Ruleset::Blocked
        };
        self.desired = r;
        r
    }

    /// The generation a deny is asked for under: the applied one, or 0.
    pub open spec fn deny_generation(self) -> u64 {
        match self.applied {
            Some(generation) => generation,
            None => 0,
        }
    }

    /// The state with the deny wanted.
    pub open spec fn blocked(self) -> Enforcement {
        Enforcement { desired: Ruleset::Blocked, ..self }
    }

    /// Wants the deny, which needs no precondition, and says under which generation
    /// to ask for it.
    pub fn block(&mut self) -> (generation: u64)
        ensures
            *final(self) == old(self).blocked(),
            generation == old(self).deny_generation(),
    {
        let generation: u64 = match self.applied {
            Some(generation) => generation,
            None => 0,
        };
        self.desired = Ruleset::Blocked;
        generation
    }
}

/// A resolver policy.
#[derive(Debug)]
pub struct DnsPolicy {
    /// The policy's name.
    pub dnspolicy_id: &'static str,
    /// Its version.
    pub version: u64,
    /// The mode, as it is encoded.
    pub mode: u32,
    /// The IPv4 servers.
    pub servers_v4: Vec<IpAddr>,
    /// The IPv6 servers.
    pub servers_v6: Vec<IpAddr>,
    /// Whether the IPv4 servers are declared; a policy that does not say is malformed.
    pub servers_declared_v4: Option<bool>,
    /// Whether the IPv6 servers are declared; a policy that does not say is malformed.
    pub servers_declared_v6: Option<bool>,
    /// The domains that are resolved apart.
    pub split_domains: Vec<String>,
    /// The domains that are searched.
    pub search_domains: Vec<String>,
    /// Whether resolving elsewhere is blocked for IPv4; a policy that does not say is
    /// malformed.
    pub block_fallback_v4: Option<bool>,
    /// Whether resolving elsewhere is blocked for IPv6; a policy that does not say is
    /// malformed.
    pub block_fallback_v6: Option<bool>,
    /// Whether answers are validated.
    pub dnssec_validate: bool,
    /// Whether upstream queries are encrypted.
    pub upstream_dot: bool,
    /// When the policy ends, in milliseconds; 0 for never.
    pub not_after_ms: u64,
}

/// The encoded mode in which the tunnel resolves nothing.
pub const DNS_MODE_OFF: u32 = 3;

/// The policy of a device without a signed one: off, every server list declared and
/// empty, and no other resolver in either family.
pub open spec fn denies_dns(p: DnsPolicy) -> bool {
    &&& p.dnspolicy_id@ == "twinvpn/default-denied"@
    &&& p.version == 0
    &&& p.mode == DNS_MODE_OFF
    &&& p.servers_v4@.len() == 0
    &&& p.servers_v6@.len() == 0
    &&& p.servers_declared_v4 == Some(true)
    &&& p.servers_declared_v6 == Some(true)
    &&& p.split_domains@.len() == 0
    &&& p.search_domains@.len() == 0
    &&& p.block_fallback_v4 == Some(true)
    &&& p.block_fallback_v6 == Some(true)
    &&& !p.dnssec_validate
    &&& !p.upstream_dot
    &&& p.not_after_ms == 0
}

/// The policy of a device without a signed one.
#[must_use]
pub fn denied_dns_policy() -> (p: DnsPolicy)
    ensures
        denies_dns(p),
{
    DnsPolicy {
        dnspolicy_id: "twinvpn/default-denied",
        version: 0,
        mode: DNS_MODE_OFF,
        servers_v4: Vec::new(),
        servers_v6: Vec::new(),
        servers_declared_v4: Some(true),
        servers_declared_v6: Some(true),
        split_domains: Vec::new(),
        search_domains: Vec::new(),
        block_fallback_v4: Some(true),
        block_fallback_v6: Some(true),
        dnssec_validate: false,
        upstream_dot: false,
        not_after_ms: 0,
    }
}

/// How far a contract routes.
#[derive(Debug, Clone, Copy, PartialEq, Eq, Structural)]
pub enum RoutingMode {
    /// To the peers of the twinnet and nowhere else.
    TwinnetOnly,
}

/// What one contract is computed from: routes to the authorized peers and to nothing
/// else, no exit, the denying resolver policy, and the deny as its rule set.
#[derive(Debug)]
pub struct ContractRequest {
    /// The generation.
    pub generation: u64,
    /// How far it routes.
    pub mode: RoutingMode,
    /// This device's own overlay addresses.
    pub overlay: OverlayAddresses,
    /// The authorized peers' addresses, as host routes.
    pub twinnet_prefixes: PerFamily<Vec<IpPrefix>>,
    /// The MTU.
    pub mtu: u32,
    /// Whether an exit is granted for IPv4.
    pub exit_v4: bool,
    /// Whether an exit is granted for IPv6.
    pub exit_v6: bool,
    /// Routes that were accepted from peers.
    pub accepted: Vec<IpPrefix>,
    /// Routes that are on the link.
    pub on_link: Vec<IpPrefix>,
    /// Routes that are kept out.
    pub excluded: Vec<IpPrefix>,
    /// The kernel's index of the interface; 0 leaves it to the adapter.
    pub interface: u32,
    /// The exit that was chosen.
    pub selected_exit_node: Option<DeviceId>,
    /// The resolver policy.
    pub dns: DnsPolicy,
    /// The resolvers that the host is pointed at.
    pub stub_addresses: PerFamily<Vec<IpAddr>>,
    /// The rule set.
    pub ruleset: Ruleset,
    /// The address that the tunnel itself goes to.
    pub tunnel_remote_address: Option<IpAddr>,
}

/// The host route to a peer, in IPv4.
pub open spec fn host_v4(o: OverlayAddresses) -> IpPrefix {
    IpPrefix { address: IpAddr::V4(o.v4), len: 32 }
}

/// The host route to a peer, in IPv6.
pub open spec fn host_v6(o: OverlayAddresses) -> IpPrefix {
    IpPrefix { address: IpAddr::V6(o.v6), len: 128 }
}

/// Every authorized peer's overlay address, as a host route in each family.
pub fn host_prefixes(peers: &Vec<OverlayAddresses>) -> (p: PerFamily<Vec<IpPrefix>>)
    ensures
        p.v4@ == peers@.map_values(|o: OverlayAddresses| host_v4(o)),
        p.v6@ == peers@.map_values(|o: OverlayAddresses| host_v6(o)),
        forall|i: int| 0 <= i < p.v4@.len() ==> (#[trigger] p.v4@[i]).wf(),
        forall|i: int| 0 <= i < p.v6@.len() ==> (#[trigger] p.v6@[i]).wf(),
{
    let mut v4: Vec<IpPrefix> = Vec::new();
    let mut v6: Vec<IpPrefix> = Vec::new();
    let mut i: usize = 0;
    while i < peers.len()
        invariant
            i <= peers@.len(),
            v4@.len() == i,
            v6@.len() == i,
            forall|j: int| 0 <= j < i ==> (#[trigger] v4@[j]) == host_v4(peers@[j]) && v4@[j].wf(),
            forall|j: int| 0 <= j < i ==> (#[trigger] v6@[j]) == host_v6(peers@[j]) && v6@[j].wf(),
        decreases peers@.len() - i,
    {
        proof {
            types::a_single_host_is_a_prefix(IpAddr::V4(peers@[i as int].v4));
            types::a_single_host_is_a_prefix(IpAddr::V6(peers@[i as int].v6));
        }
        v4.push(IpPrefix { address: IpAddr::V4(peers[i].v4), len: 32 });
        v6.push(IpPrefix { address: IpAddr::V6(peers[i].v6), len: 128 });
        i += 1;
    }
    assert(v4@ =~= peers@.map_values(|o: OverlayAddresses| host_v4(o)));
    assert(v6@ =~= peers@.map_values(|o: OverlayAddresses| host_v6(o)));
    PerFamily { v4, v6 }
}

/// What one contract is computed from.
fn assemble(local: OverlayAddresses, peers: &Vec<OverlayAddresses>, generation: u64) -> (c:
    ContractRequest)
    ensures
        requests(c, local, peers@, generation),
{
    ContractRequest {
        generation,
        mode: RoutingMode::TwinnetOnly,
        overlay: local,
        twinnet_prefixes: host_prefixes(peers),
        mtu: MTU,
        exit_v4: false,
        exit_v6: false,
        accepted: Vec::new(),
        on_link: Vec::new(),
        excluded: Vec::new(),
        interface: 0,
        selected_exit_node: None,
        dns: denied_dns_policy(),
        stub_addresses: PerFamily { v4: Vec::new(), v6: Vec::new() },
        ruleset: Ruleset::Blocked,
        tunnel_remote_address: None,
    }
}

/// The request names this device, exactly the authorized peers and no other route, no
/// exit, the denying resolver policy with no resolver to point at, and the deny.
pub open spec fn requests(
    c: ContractRequest,
    local: OverlayAddresses,
    peers: Seq<OverlayAddresses>,
    generation: u64,
) -> bool {
    &&& c.generation == generation
    &&& c.mode == RoutingMode::TwinnetOnly
    &&& c.overlay == local
    &&& c.twinnet_prefixes.v4@ == peers.map_values(|o: OverlayAddresses| host_v4(o))
    &&& c.twinnet_prefixes.v6@ == peers.map_values(|o: OverlayAddresses| host_v6(o))
    &&& c.mtu == MTU
    &&& !c.exit_v4
    &&& !c.exit_v6
    &&& c.accepted@.len() == 0
    &&& c.on_link@.len() == 0
    &&& c.excluded@.len() == 0
    &&& c.interface == 0
    &&& c.selected_exit_node is None
    &&& denies_dns(c.dns)
    &&& c.stub_addresses.v4@.len() == 0
    &&& c.stub_addresses.v6@.len() == 0
    &&& c.ruleset == Ruleset::Blocked
    &&& c.tunnel_remote_address is None
}

/// Which part of a contract could not be computed.
#[derive(Debug, Clone, Copy, PartialEq, Eq)]
pub enum AssembleError {
    /// The routes, with the routing engine's own diagnostic.
    Route(Diagnostic),
    /// The resolver policy.
    Dns,
    /// The contract itself, under this code.
    Contract(ReasonCode),
}

impl AssembleError {
    /// The diagnostic it is reported as.
    pub open spec fn reported(self) -> Diagnostic {
        match self {
            AssembleError::Route(diagnostic) => diagnostic,
            AssembleError::Dns => Diagnostic::plain(
                ReasonCode::DnsResolutionBlockedFailClosed,
                Component::Dns,
            ),
            AssembleError::Contract(code) => Diagnostic::plain(code, Component::KillSwitch),
        }
    }

    /// The diagnostic it is reported as.
    #[must_use]
    pub fn diagnostic(self) -> (d: Diagnostic)
        ensures
            d == self.reported(),
    {
        match self {
            AssembleError::Route(diagnostic) => diagnostic,
            AssembleError::Dns => Diagnostic::new(
                ReasonCode::DnsResolutionBlockedFailClosed,
                Component::Dns,
            ),
            AssembleError::Contract(code) => Diagnostic::new(code, Component::KillSwitch),
        }
    }
}

/// What arming produced.
#[derive(Debug, Clone, Copy, PartialEq, Eq, Structural)]
pub struct Armed {
    /// The generation that was installed.
    pub generation: u64,
    /// The rule set that was read back, never the one that was intended.
    pub ruleset: Ruleset,
}

/// A step of arming, as a failure names it.
#[derive(Debug, Clone, Copy, PartialEq, Eq, Structural)]
pub enum ArmStep {
    /// The deny is live.
    BlockedLive,
    /// The interface is created, down.
    CreateInterfaceDown,
    /// The link comes up.
    LinkUp,
    /// The contract is applied.
    ApplyContract,
    /// The path is validated and the rules are asserted.
    PathValidatedAndAsserted,
}

impl ArmStep {
    /// The step's name.
    pub open spec fn label(self) -> &'static str {
        match self {
            ArmStep::BlockedLive => "BlockedLive",
            ArmStep::CreateInterfaceDown => "CreateInterfaceDown",
            ArmStep::LinkUp => "LinkUp",
            ArmStep::ApplyContract => "ApplyContract",
            ArmStep::PathValidatedAndAsserted => "PathValidatedAndAsserted",
        }
    }

    /// The step's name.
    #[must_use]
    pub fn name(self) -> (s: &'static str)
        ensures
            s == self.label(),
    {
        match self {
            ArmStep::BlockedLive => "BlockedLive",
            ArmStep::CreateInterfaceDown => "CreateInterfaceDown",
            ArmStep::LinkUp => "LinkUp",
            ArmStep::ApplyContract => "ApplyContract",
            ArmStep::PathValidatedAndAsserted => "PathValidatedAndAsserted",
        }
    }
}

/// What a failure of an arm step is reported as.
pub open spec fn step_failure(step: ArmStep, error: PlatformError) -> Diagnostic {
    Diagnostic {
        code: error.code,
        component: Component::KillSwitch,
        evidence: Evidence::ArmStep(step.label()),
    }
}

/// What an arming run waits for.
#[derive(Debug, Clone, Copy, PartialEq, Eq)]
pub enum ArmStage {
    /// The contract of a generation, computed.
    Assembling {
        /// The generation.
        generation: u64,
    },
    /// The deny, asserted.
    Denying {
        /// The generation.
        generation: u64,
    },
    /// The interface, created.
    Creating {
        /// The generation.
        generation: u64,
    },
    /// The link, up.
    LinkingUp {
        /// The generation.
        generation: u64,
        /// The interface.
        handle: TunnelHandle,
    },
    /// The contract, applied.
    Applying {
        /// The generation.
        generation: u64,
        /// The interface.
        handle: TunnelHandle,
    },
    /// The rule set, read.
    Asserting {
        /// The generation.
        generation: u64,
        /// The interface.
        handle: TunnelHandle,
    },
    /// The rule set, swapped.
    Swapping {
        /// The generation.
        generation: u64,
    },
    /// The rule set, read back.
    ReadingBack {
        /// The generation.
        generation: u64,
    },
    /// The deny, asked for because of a failure.
    Tightening {
        /// The failure.
        failure: Diagnostic,
    },
}

/// What came back to an arming run.
#[derive(Debug, Clone, Copy, PartialEq, Eq)]
pub enum ArmEvent {
    /// The contract was computed.
    Assembled(Result<(), AssembleError>),
    /// A rule set was set, the link was raised, or the contract was applied.
    Did(Result<(), PlatformError>),
    /// The interface was created.
    Created(Result<TunnelHandle, PlatformError>),
    /// The rule set was read; and whether any session carries traffic on a validated
    /// path.
    Read {
        /// What is installed, where the adapter can say.
        installed: Result<Option<Ruleset>, PlatformError>,
        /// Whether any session carries traffic on a validated path.
        connected: bool,
    },
}

/// What an arming run does next.
#[derive(Debug, Clone, Copy, PartialEq, Eq)]
pub enum ArmAction {
    /// Set a rule set.
    SetRuleset {
        /// Under which generation.
        generation: u64,
        /// Which.
        ruleset: Ruleset,
    },
    /// Create the interface, down.
    CreateInterface {
        /// Its name.
        name: &'static str,
        /// Its MTU.
        mtu: u32,
    },
    /// Raise the link.
    LinkUp(TunnelHandle),
    /// Apply the contract as one transaction.
    Apply {
        /// Its generation.
        generation: u64,
    },
    /// Read which rule set is installed.
    ReadRuleset,
    /// It is over; a diagnostic to publish where the deny itself was refused.
    Done {
        /// What arming produced.
        result: Result<Armed, Diagnostic>,
        /// What to publish.
        publish: Option<Diagnostic>,
    },
}

/// The event answers what the stage waits for.
pub open spec fn arm_fits(stage: ArmStage, event: ArmEvent) -> bool {
    match stage {
        ArmStage::Assembling { .. } => event is Assembled,
        ArmStage::Creating { .. } => event is Created,
        ArmStage::Asserting { .. } | ArmStage::ReadingBack { .. } => event is Read,
        _ => event is Did,
    }
}

/// The run asks for the deny because of a failure.
pub open spec fn tightened(e: Enforcement, failure: Diagnostic) -> (
    Enforcement,
    ArmStage,
    ArmAction,
) {
    (
        e.blocked(),
        ArmStage::Tightening { failure },
        ArmAction::SetRuleset { generation: e.deny_generation(), ruleset: Ruleset::Blocked },
    )
}

/// What an arming run does about what came back.
pub open spec fn arm_next(e: Enforcement, stage: ArmStage, event: ArmEvent) -> (
    Enforcement,
    ArmStage,
    ArmAction,
) {
    match (stage, event) {
        (ArmStage::Assembling { generation }, ArmEvent::Assembled(assembled)) => match assembled {
            Err(error) => tightened(e, error.reported()),
            Ok(()) => (
                e,
                ArmStage::Denying { generation },
                ArmAction::SetRuleset { generation: 0, ruleset: Ruleset::Blocked },
            ),
        },
        (ArmStage::Denying { generation }, ArmEvent::Did(did)) => match did {
            Err(error) => tightened(e, step_failure(ArmStep::BlockedLive, error)),
            Ok(()) => match e.handle {
                Some(handle) => (
                    e,
                    ArmStage::LinkingUp { generation, handle },
                    ArmAction::LinkUp(handle),
                ),
                None => (
                    e,
                    ArmStage::Creating { generation },
                    ArmAction::CreateInterface { name: OVERLAY_INTERFACE, mtu: MTU },
                ),
            },
        },
        (ArmStage::Creating { generation }, ArmEvent::Created(created)) => match created {
            Err(error) => tightened(e, step_failure(ArmStep::CreateInterfaceDown, error)),
            Ok(handle) => (
                Enforcement { handle: Some(handle), ..e },
                ArmStage::LinkingUp { generation, handle },
                ArmAction::LinkUp(handle),
            ),
        },
        (ArmStage::LinkingUp { generation, handle }, ArmEvent::Did(did)) => match did {
            Err(error) => tightened(e, step_failure(ArmStep::LinkUp, error)),
            Ok(()) => (
                e,
                ArmStage::Applying { generation, handle },
                ArmAction::Apply { generation },
            ),
        },
        (ArmStage::Applying { generation, handle }, ArmEvent::Did(did)) => match did {
            Err(error) => tightened(e, step_failure(ArmStep::ApplyContract, error)),
            Ok(()) => (e, ArmStage::Asserting { generation, handle }, ArmAction::ReadRuleset),
        },
        (
            ArmStage::Asserting { generation, handle },
            ArmEvent::Read { installed, connected },
        ) => match installed {
            Err(error) => tightened(e, step_failure(ArmStep::PathValidatedAndAsserted, error)),
            Ok(posture) => {
                let desired = if posture is Some && connected {
                    Ruleset::Protected
                } else {
                    Ruleset::Blocked
                };
                (
                    Enforcement {
                        desired,
                        handle: Some(handle),
                        applied: Some(generation),
                        ..e
                    },
                    ArmStage::Swapping { generation },
                    ArmAction::SetRuleset { generation, ruleset: desired },
                )
            },
        },
        (ArmStage::Swapping { generation }, ArmEvent::Did(did)) => match did {
            Err(error) => tightened(e, Diagnostic::plain(error.code, Component::KillSwitch)),
            Ok(()) => (e, ArmStage::ReadingBack { generation }, ArmAction::ReadRuleset),
        },
        (ArmStage::ReadingBack { generation }, ArmEvent::Read { installed, .. }) => match installed {
            Err(error) => tightened(e, Diagnostic::plain(error.code, Component::KillSwitch)),
            Ok(posture) => (
                e,
                stage,
                ArmAction::Done {
                    result: Ok(
                        Armed {
                            generation,
                            ruleset: match posture {
                                Some(ruleset) => ruleset,
                                None => Ruleset::Blocked,
                            },
                        },
                    ),
                    publish: None,
                },
            ),
        },
        (ArmStage::Tightening { failure }, ArmEvent::Did(did)) => (
            e,
            stage,
            ArmAction::Done {
                result: Err(failure),
                publish: match did {
                    Err(error) => Some(Diagnostic::plain(error.code, Component::KillSwitch)),
                    Ok(()) => None,
                },
            },
        ),
        _ => (e, stage, ArmAction::ReadRuleset),
    }
}

/// How an arming run begins.
#[derive(Debug)]
pub enum ArmBegin {
    /// Compute a contract.
    Assemble {
        /// What the run waits for.
        stage: ArmStage,
        /// What to compute it from.
        request: ContractRequest,
    },
    /// The run is refused, and asks for the deny.
    Refused {
        /// What the run waits for.
        stage: ArmStage,
        /// The deny.
        action: ArmAction,
    },
}

fn tighten(e: &mut Enforcement, failure: Diagnostic) -> (r: (ArmStage, ArmAction))
    ensures
        (*final(e), r.0, r.1) == tightened(*old(e), failure),
{
    let generation: u64 = e.block();
    (
        ArmStage::Tightening { failure },
        ArmAction::SetRuleset { generation, ruleset: Ruleset::Blocked },
    )
}

fn failed_step(step: ArmStep, error: &PlatformError) -> (d: Diagnostic)
    ensures
        d == step_failure(step, *error),
{
    Diagnostic {
        code: error.code,
        component: Component::KillSwitch,
        evidence: Evidence::ArmStep(step.name()),
    }
}

/// The peers of a twinnet, in the order they are walked.
pub open spec fn walks_peers(m: PlanesModel, twinnet: Seq<char>, order: Seq<Seq<u8>>) -> bool {
    &&& ascending(order)
    &&& forall|k: Seq<u8>| #[trigger] order.contains(k) == m.peers.contains_key((twinnet, k))
}

/// The overlay addresses of those peers whose tunnel key binding verified.
pub open spec fn authorized_of(m: PlanesModel, twinnet: Seq<char>, order: Seq<Seq<u8>>) -> Seq<
    OverlayAddresses,
>
    decreases order.len(),
{
    if order.len() == 0 {
        Seq::empty()
    } else {
        let front = authorized_of(m, twinnet, order.drop_last());
        let peer = m.peers[(twinnet, order.last())];
        if peer.verified {
            front.push(peer.overlay)
        } else {
            front
        }
    }
}

/// The `j`-th peer that is walked is authorized, and these are its overlay addresses.
pub open spec fn authorizes_at(
    m: PlanesModel,
    twinnet: Seq<char>,
    order: Seq<Seq<u8>>,
    j: int,
    overlay: OverlayAddresses,
) -> bool {
    &&& 0 <= j < order.len()
    &&& m.peers[(twinnet, order[j])].verified
    &&& m.peers[(twinnet, order[j])].overlay == overlay
}

/// Every address that is routed is that of a peer whose tunnel key binding verified.
pub proof fn a_routed_peer_is_authorized(
    m: PlanesModel,
    twinnet: Seq<char>,
    order: Seq<Seq<u8>>,
    i: int,
)
    requires
        0 <= i < authorized_of(m, twinnet, order).len(),
    ensures
        exists|j: int| #[trigger]
            authorizes_at(m, twinnet, order, j, authorized_of(m, twinnet, order)[i]),
    decreases order.len(),
{
    let fewer = order.drop_last();
    let front = authorized_of(m, twinnet, fewer);
    let overlay = authorized_of(m, twinnet, order)[i];
    if i < front.len() {
        a_routed_peer_is_authorized(m, twinnet, fewer, i);
        let j = choose|j: int| #[trigger] authorizes_at(m, twinnet, fewer, j, front[i]);
        assert(authorizes_at(m, twinnet, order, j, overlay));
    } else {
        assert(authorizes_at(m, twinnet, order, order.len() - 1, overlay));
    }
}

/// Every peer whose tunnel key binding verified is routed.
pub proof fn an_authorized_peer_is_routed(
    m: PlanesModel,
    twinnet: Seq<char>,
    order: Seq<Seq<u8>>,
    j: int,
)
    requires
        0 <= j < order.len(),
        m.peers[(twinnet, order[j])].verified,
    ensures
        authorized_of(m, twinnet, order).contains(m.peers[(twinnet, order[j])].overlay),
    decreases order.len(),
{
    let fewer = order.drop_last();
    let front = authorized_of(m, twinnet, fewer);
    let all = authorized_of(m, twinnet, order);
    let overlay = m.peers[(twinnet, order[j])].overlay;
    if j < order.len() - 1 {
        an_authorized_peer_is_routed(m, twinnet, fewer, j);
        let i = choose|i: int| 0 <= i < front.len() && front[i] == overlay;
        assert(all[i] == overlay);
    } else {
        assert(all[all.len() - 1] == overlay);
    }
}

/// The overlay addresses of every authorized peer of a twinnet, ascending by device.
fn authorized_peers(view: &DataPlaneView<'_>, twinnet: &TwinnetId) -> (list: Vec<OverlayAddresses>)
    requires
        view.wf(),
    ensures
        exists|order: Seq<Seq<u8>>| #[trigger]
            walks_peers(view@, twinnet@, order) && list@ == authorized_of(
                view@,
                twinnet@,
                order,
            ),
{
    let records = view.peers(twinnet);
    let ghost order = choose|order: Seq<Seq<u8>>| #[trigger]
        lists_peers(view@, twinnet@, order, records@);
    let mut list: Vec<OverlayAddresses> = Vec::new();
    let mut i: usize = 0;
    assert(order.take(0) =~= Seq::<Seq<u8>>::empty());
    while i < records.len()
        invariant
            i <= records@.len(),
            lists_peers(view@, twinnet@, order, records@),
            list@ == authorized_of(view@, twinnet@, order.take(i as int)),
        decreases records@.len() - i,
    {
        assert(records@[i as int]@ == view@.peers[(twinnet@, order[i as int])]);
        assert(order.take(i + 1).drop_last() =~= order.take(i as int));
        if records[i].tunnel_key_binding_verified {
            list.push(records[i].overlay);
        }
        i += 1;
    }
    assert(order.take(order.len() as int) =~= order);
    assert(walks_peers(view@, twinnet@, order));
    list
}

/// How arming begins for these peers: without one it is refused and the deny is asked
/// for; else a contract of the next generation is asked for, for exactly these.
pub open spec fn begins(
    before: Enforcement,
    after: Enforcement,
    begin: ArmBegin,
    local: OverlayAddresses,
    authorized: Seq<OverlayAddresses>,
) -> bool {
    if authorized.len() == 0 {
        begin matches ArmBegin::Refused { stage, action } && (after, stage, action) == tightened(
            before,
            Diagnostic::plain(ReasonCode::AuthPeerUntrusted, Component::KillSwitch),
        )
    } else {
        &&& begin matches ArmBegin::Assemble { stage, request }
        &&& stage == (ArmStage::Assembling { generation: before.next_generation })
        &&& requests(request, local, authorized, before.next_generation)
        &&& after == (Enforcement {
            next_generation: if before.next_generation == u64::MAX {
                u64::MAX
            } else {
                (before.next_generation + 1) as u64
            },
            ..before
        })
    }
}

/// Begins to arm the host. `local` is this device's own overlay addresses and the
/// twinnet they are of. Without them, and without an authorized peer, it is refused by
/// name and the deny is asked for: an empty tunnel must not report protection.
pub fn arm(
    e: &mut Enforcement,
    view: &DataPlaneView<'_>,
    local: Option<(TwinnetId, OverlayAddresses)>,
) -> (begin: ArmBegin)
    requires
        view.wf(),
    ensures
        match local {
            None => begin matches ArmBegin::Refused { stage, action } && (
                *final(e),
                stage,
                action,
            ) == tightened(
                *old(e),
                Diagnostic::plain(ReasonCode::AuthIdentityMissing, Component::KillSwitch),
            ),
            Some((twinnet, local)) => exists|order: Seq<Seq<u8>>| #[trigger]
                walks_peers(view@, twinnet@, order) && begins(
                    *old(e),
                    *final(e),
                    begin,
                    local,
                    authorized_of(view@, twinnet@, order),
                ),
        },
{
    let (twinnet, own) = match local {
        Some(local) => local,
        None => {
            let failure = Diagnostic::new(ReasonCode::AuthIdentityMissing, Component::KillSwitch);
            let (stage, action) = tighten(e, failure);
            return ArmBegin::Refused { stage, action };
        },
    };
    let authorized = authorized_peers(view, &twinnet);
    let ghost order = choose|order: Seq<Seq<u8>>| #[trigger]
        walks_peers(view@, twinnet@, order) && authorized@ == authorized_of(view@, twinnet@, order);
    assert(walks_peers(view@, twinnet@, order));
    if authorized.len() == 0 {
        let failure = Diagnostic::new(ReasonCode::AuthPeerUntrusted, Component::KillSwitch);
        let (stage, action) = tighten(e, failure);
        return ArmBegin::Refused { stage, action };
    }
    let generation: u64 = e.next_generation;
    e.next_generation = e.next_generation.saturating_add(1);
    let request = assemble(own, &authorized, generation);
    ArmBegin::Assemble { stage: ArmStage::Assembling { generation }, request }
}

/// One decision of an arming run.
pub fn install(e: &mut Enforcement, stage: ArmStage, event: ArmEvent) -> (r: (ArmStage, ArmAction))
    requires
        arm_fits(stage, event),
    ensures
        (*final(e), r.0, r.1) == arm_next(*old(e), stage, event),
{
    match (stage, event) {
        (ArmStage::Assembling { generation }, ArmEvent::Assembled(assembled)) => match assembled {
            Err(error) => tighten(e, error.diagnostic()),
            Ok(()) => (
                ArmStage::Denying { generation },
                ArmAction::SetRuleset { generation: 0, ruleset: Ruleset::Blocked },
            ),
        },
        (ArmStage::Denying { generation }, ArmEvent::Did(did)) => match did {
            Err(error) => tighten(e, failed_step(ArmStep::BlockedLive, &error)),
            Ok(()) => match e.handle {
                Some(handle) => (
                    ArmStage::LinkingUp { generation, handle },
                    ArmAction::LinkUp(handle),
                ),
                None => (
                    ArmStage::Creating { generation },
                    ArmAction::CreateInterface { name: OVERLAY_INTERFACE, mtu: MTU },
                ),
            },
        },
        (ArmStage::Creating { generation }, ArmEvent::Created(created)) => match created {
            Err(error) => tighten(e, failed_step(ArmStep::CreateInterfaceDown, &error)),
            Ok(handle) => {
                e.handle = Some(handle);
                (ArmStage::LinkingUp { generation, handle }, ArmAction::LinkUp(handle))
            },
        },
        (ArmStage::LinkingUp { generation, handle }, ArmEvent::Did(did)) => match did {
            Err(error) => tighten(e, failed_step(ArmStep::LinkUp, &error)),
            Ok(()) => (ArmStage::Applying { generation, handle }, ArmAction::Apply { generation }),
        },
        (ArmStage::Applying { generation, handle }, ArmEvent::Did(did)) => match did {
            Err(error) => tighten(e, failed_step(ArmStep::ApplyContract, &error)),
            Ok(()) => (ArmStage::Asserting { generation, handle }, ArmAction::ReadRuleset),
        },
        (
            ArmStage::Asserting { generation, handle },
            ArmEvent::Read { installed, connected },
        ) => match installed {
            Err(error) => tighten(e, failed_step(ArmStep::PathValidatedAndAsserted, &error)),
            Ok(posture) => {
                e.handle = Some(handle);
                e.applied = Some(generation);
                let asserted = posture.is_some();
                let pre = ProtectedPreconditions {
                    path_validated: connected,
                    ruleset_present_v4: asserted,
                    ruleset_present_v6: asserted,
                };
                let ruleset = e.leave_blocked(pre);
                (
                    ArmStage::Swapping { generation },
                    ArmAction::SetRuleset { generation, ruleset },
                )
            },
        },
        (ArmStage::Swapping { generation }, ArmEvent::Did(did)) => match did {
            Err(error) => tighten(e, Diagnostic::new(error.code, Component::KillSwitch)),
            Ok(()) => (ArmStage::ReadingBack { generation }, ArmAction::ReadRuleset),
        },
        (ArmStage::ReadingBack { generation }, ArmEvent::Read { installed, .. }) => match installed {
            Err(error) => tighten(e, Diagnostic::new(error.code, Component::KillSwitch)),
            Ok(posture) => {
                let ruleset = match posture {
                    Some(ruleset) => ruleset,
                    None => Ruleset::Blocked,
                };
                (
                    stage,
                    ArmAction::Done { result: Ok(Armed { generation, ruleset }), publish: None },
                )
            },
        },
        (ArmStage::Tightening { failure }, ArmEvent::Did(did)) => {
            let publish = match did {
                Err(error) => Some(Diagnostic::new(error.code, Component::KillSwitch)),
                Ok(()) => None,
            };
            (stage, ArmAction::Done { result: Err(failure), publish })
        },
        _ => (stage, ArmAction::ReadRuleset),
    }
}

/// Every failure tightens. A run reports a failure only after the deny was asked for:
/// wherever something came back as an error, the deny is wanted and the next action
/// asks for it, and no stage but the one that asked reports a failure.
pub proof fn every_failure_path_asks_for_the_deny(e: Enforcement, stage: ArmStage, event: ArmEvent)
    requires
        arm_fits(stage, event),
    ensures
        ({
            let (after, next, action) = arm_next(e, stage, event);
            let failed = match event {
                ArmEvent::Assembled(r) => r is Err,
                ArmEvent::Did(r) => r is Err,
                ArmEvent::Created(r) => r is Err,
                ArmEvent::Read { installed, .. } => installed is Err,
            };
            &&& failed && !(stage is Tightening) ==> next is Tightening && after.desired
                == Ruleset::Blocked && action == (ArmAction::SetRuleset {
                generation: e.deny_generation(),
                ruleset: Ruleset::Blocked,
            })
            &&& (action matches ArmAction::Done { result: Err(_), .. }) ==> stage is Tightening
        }),
{
}

/// An interface that was created is kept whatever fails afterwards, so that arming again
/// reuses it: a run that has one never creates another.
pub proof fn arming_again_reuses_the_interface(e: Enforcement, stage: ArmStage, event: ArmEvent)
    requires
        arm_fits(stage, event),
    ensures
        ({
            let (after, _, action) = arm_next(e, stage, event);
            &&& e.handle is Some ==> after.handle is Some
            &&& e.handle is Some ==> !(action is CreateInterface)
            &&& event matches ArmEvent::Created(Ok(handle)) ==> after.handle == Some(handle)
        }),
{
}

/// Protection is asked for only where a session carries traffic on a validated path
/// and the adapter read a rule set back; and only after the contract was applied.
pub proof fn protection_needs_a_path_and_an_assertion(
    e: Enforcement,
    stage: ArmStage,
    event: ArmEvent,
)
    requires
        arm_fits(stage, event),
    ensures
        (arm_next(e, stage, event).2 matches ArmAction::SetRuleset { ruleset, .. } && ruleset
            == Ruleset::Protected) ==> stage is Asserting && (event matches ArmEvent::Read {
            installed,
            connected,
        } && connected && installed is Ok && installed->Ok_0 is Some),
{
}

/// What arming reports is the rule set that was read back; one that cannot be read is
/// reported as the deny.
pub proof fn the_posture_is_what_was_read_back(e: Enforcement, stage: ArmStage, event: ArmEvent)
    requires
        arm_fits(stage, event),
    ensures
        arm_next(e, stage, event).2 matches ArmAction::Done { result: Ok(armed), .. } ==> stage
            is ReadingBack && (event matches ArmEvent::Read { installed: Ok(posture), .. }
            && armed.ruleset == (match posture {
            Some(ruleset) => ruleset,
            None => Ruleset::Blocked,
        })),
{
}

/// What a teardown waits for.
#[derive(Debug, Clone, Copy, PartialEq, Eq, Structural)]
pub enum TeardownStage {
    /// The link, down.
    LinkingDown(TunnelHandle),
    /// The deny; and the interface to destroy after it, if there is one.
    Denying(Option<TunnelHandle>),
    /// The interface, destroyed.
    Destroying,
    /// Nothing.
    Over,
}

/// What a teardown does next.
#[derive(Debug, Clone, Copy, PartialEq, Eq, Structural)]
pub enum TeardownAction {
    /// Take the link down.
    LinkDown(TunnelHandle),
    /// Ask for the deny.
    Deny {
        /// Under which generation.
        generation: u64,
    },
    /// Destroy the interface.
    Destroy(TunnelHandle),
    /// It is over.
    Done,
}

/// What a teardown does about what came back: the new state, what it waits for, what
/// to publish, and what to do. A failure is published and the teardown goes on.
pub open spec fn teardown_next(
    e: Enforcement,
    stage: TeardownStage,
    did: Result<(), PlatformError>,
) -> (Enforcement, TeardownStage, Option<Diagnostic>, TeardownAction) {
    match stage {
        TeardownStage::LinkingDown(handle) => (
            e.blocked(),
            TeardownStage::Denying(Some(handle)),
            match did {
                Err(error) => Some(Diagnostic::plain(error.code, Component::TunnelEngine)),
                Ok(()) => None,
            },
            TeardownAction::Deny { generation: e.deny_generation() },
        ),
        TeardownStage::Denying(handle) => {
            let publish = match did {
                Err(error) => Some(Diagnostic::plain(error.code, Component::KillSwitch)),
                Ok(()) => None,
            };
            match handle {
                Some(handle) => (
                    e,
                    TeardownStage::Destroying,
                    publish,
                    TeardownAction::Destroy(handle),
                ),
                None => (e, TeardownStage::Over, publish, TeardownAction::Done),
            }
        },
        TeardownStage::Destroying => match did {
            Ok(()) => (
                Enforcement { handle: None, applied: None, ..e },
                TeardownStage::Over,
                None,
                TeardownAction::Done,
            ),
            Err(error) => (
                e,
                TeardownStage::Over,
                Some(Diagnostic::plain(error.code, Component::TunnelEngine)),
                TeardownAction::Done,
            ),
        },
        TeardownStage::Over => (e, stage, None, TeardownAction::Done),
    }
}

/// How a teardown begins: the link first where there is one, else the deny.
pub open spec fn teardown_first(e: Enforcement) -> (Enforcement, TeardownStage, TeardownAction) {
    match e.handle {
        Some(handle) => (
            e,
            TeardownStage::LinkingDown(handle),
            TeardownAction::LinkDown(handle),
        ),
        None => (
            e.blocked(),
            TeardownStage::Denying(None),
            TeardownAction::Deny { generation: e.deny_generation() },
        ),
    }
}

/// Begins to take the tunnel down: the link first where there is one, else the deny.
pub fn teardown(e: &mut Enforcement) -> (r: (TeardownStage, TeardownAction))
    ensures
        (*final(e), r.0, r.1) == teardown_first(*old(e)),
{
    match e.handle {
        Some(handle) => (TeardownStage::LinkingDown(handle), TeardownAction::LinkDown(handle)),
        None => {
            let generation: u64 = e.block();
            (TeardownStage::Denying(None), TeardownAction::Deny { generation })
        },
    }
}

/// One decision of a teardown.
pub fn teardown_step(
    e: &mut Enforcement,
    stage: TeardownStage,
    did: Result<(), PlatformError>,
) -> (r: (TeardownStage, Option<Diagnostic>, TeardownAction))
    ensures
        (*final(e), r.0, r.1, r.2) == teardown_next(*old(e), stage, did),
{
    match stage {
        TeardownStage::LinkingDown(handle) => {
            let generation: u64 = e.block();
            let publish = match did {
                Err(error) => Some(Diagnostic::new(error.code, Component::TunnelEngine)),
                Ok(()) => None,
            };
            (TeardownStage::Denying(Some(handle)), publish, TeardownAction::Deny { generation })
        },
        TeardownStage::Denying(handle) => {
            let publish = match did {
                Err(error) => Some(Diagnostic::new(error.code, Component::KillSwitch)),
                Ok(()) => None,
            };
            match handle {
                Some(handle) => (
                    TeardownStage::Destroying,
                    publish,
                    TeardownAction::Destroy(handle),
                ),
                None => (TeardownStage::Over, publish, TeardownAction::Done),
            }
        },
        TeardownStage::Destroying => match did {
            Ok(()) => {
                e.handle = None;
                e.applied = None;
                (TeardownStage::Over, None, TeardownAction::Done)
            },
            Err(error) => {
                let publish = Some(Diagnostic::new(error.code, Component::TunnelEngine));
                (TeardownStage::Over, publish, TeardownAction::Done)
            },
        },
        TeardownStage::Over => (TeardownStage::Over, None, TeardownAction::Done),
    }
}

/// The deny comes before anything is destroyed, whatever failed on the way: an
/// interface is destroyed only out of the stage that asked for the deny, and the
/// deny stays wanted.
pub proof fn a_teardown_denies_before_it_destroys(
    e: Enforcement,
    stage: TeardownStage,
    did: Result<(), PlatformError>,
)
    ensures
        ({
            let (after, next, _, action) = teardown_next(e, stage, did);
            &&& action is Destroy ==> stage is Denying && after == e
            &&& next is Denying ==> after.desired == Ruleset::Blocked && action is Deny
            &&& after.desired == e.desired || after.desired == Ruleset::Blocked
        }),
{
}

} // verus!
