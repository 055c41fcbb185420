//! The control channel: what a device must be enrolled with to open one, and what it
//! opens it with.
//!
//! A device without a usable identity and a device without a reachable control plane
//! are refused under different codes, and neither falls back to a channel that is not
//! authenticated.

use vstd::prelude::*;

use crate::reason::{Component, Diagnostic, ReasonCode};

verus! {

/// A coordination endpoint that was resolved.
#[derive(Debug)]
pub struct ControlEndpoint {
    /// Its name.
    pub server_name: String,
}

/// What a control channel is opened with: the pinned server keys, and where to.
#[derive(Debug)]
pub struct ControlPlaneEnrolment {
    /// The pinned server keys.
    pub pins: Vec<Vec<u8>>,
    /// The endpoints, in the order they were resolved.
    pub endpoints: Vec<ControlEndpoint>,
}

/// A set of pins that accepts some server: it is not empty, and no pin is.
pub open spec fn pins_usable(pins: Seq<Vec<u8>>) -> bool {
    &&& pins.len() > 0
    &&& forall|i: int| 0 <= i < pins.len() ==> (#[trigger] pins[i])@.len() > 0
}

fn usable_pins(pins: &Vec<Vec<u8>>) -> (b: bool)
    ensures
        b == pins_usable(pins@),
{
    if pins.len() == 0 {
        return false;
    }
    let mut i: usize = 0;
    while i < pins.len()
        invariant
            i <= pins@.len(),
            forall|j: int| 0 <= j < i ==> (#[trigger] pins@[j])@.len() > 0,
        decreases pins@.len() - i,
    {
        if pins[i].len() == 0 {
            return false;
        }
        i += 1;
    }
    true
}

/// A refusal that the control-plane client observes.
pub open spec fn observed(code: ReasonCode) -> Diagnostic {
    Diagnostic::plain(code, Component::ControlPlaneClient)
}

fn refusal(code: ReasonCode) -> (d: Diagnostic)
    ensures
        d == observed(code),
{
    Diagnostic::new(code, Component::ControlPlaneClient)
}

/// The enrolment that pins and endpoints give, or why they give none.
pub open spec fn enrolled_at(
    server_pins: Vec<Vec<u8>>,
    endpoints: Vec<ControlEndpoint>,
    r: Result<ControlPlaneEnrolment, Diagnostic>,
) -> bool {
    r == (if !pins_usable(server_pins@) {
        Err::<ControlPlaneEnrolment, Diagnostic>(observed(ReasonCode::ControlHandshakeRejected))
    } else if endpoints@.len() == 0 {
        Err::<ControlPlaneEnrolment, Diagnostic>(observed(ReasonCode::ControlUnreachable))
    } else {
        Ok::<ControlPlaneEnrolment, Diagnostic>(
            ControlPlaneEnrolment { pins: server_pins, endpoints },
        )
    })
}

impl ControlPlaneEnrolment {
    /// Binds the pinned server keys to the endpoints. Pins that accept no server are
    /// the refusal that every handshake under them would reach; no endpoint is a
    /// different fact, under a different code.
    pub fn new(server_pins: Vec<Vec<u8>>, endpoints: Vec<ControlEndpoint>) -> (r: Result<
        Self,
        Diagnostic,
    >)
        ensures
            enrolled_at(server_pins, endpoints, r),
    {
        if !usable_pins(&server_pins) {
            return Err(refusal(ReasonCode::ControlHandshakeRejected));
        }
        if endpoints.len() == 0 {
            return Err(refusal(ReasonCode::ControlUnreachable));
        }
        Ok(ControlPlaneEnrolment { pins: server_pins, endpoints })
    }

    /// The coordination names: those of the endpoints, so the two cannot disagree.
    #[must_use]
    pub fn coordination_names(&self) -> (names: Vec<String>)
        ensures
            names@ == self.endpoints@.map_values(|e: ControlEndpoint| e.server_name),
    {
        let mut names: Vec<String> = Vec::new();
        let mut i: usize = 0;
        while i < self.endpoints.len()
            invariant
                i <= self.endpoints@.len(),
                names@.len() == i,
                forall|j: int| 0 <= j < i ==> names@[j] == self.endpoints@[j].server_name,
            decreases self.endpoints@.len() - i,
        {
            names.push(self.endpoints[i].server_name.clone());
            i += 1;
        }
        assert(names@ =~= self.endpoints@.map_values(|e: ControlEndpoint| e.server_name));
        names
    }

    /// How many server keys are pinned.
    #[must_use]
    pub fn pin_count(&self) -> (n: usize)
        ensures
            n == self.pins@.len(),
    {
        self.pins.len()
    }
}

/// A prefix that translates IPv4 addresses into IPv6 ones.
#[derive(Debug, Clone, Copy, PartialEq, Eq)]
pub struct Nat64Prefix {
    /// The network address.
    pub octets: [u8; 16],
    /// How many bits count.
    pub len: u8,
}

/// A prefix that the channel can translate with: it leaves exactly the last four octets
/// to the address, and they are clear.
pub open spec fn translates(prefix: Nat64Prefix) -> bool {
    &&& prefix.len == 96
    &&& forall|i: int| 12 <= i < 16 ==> #[trigger] prefix.octets@[i] == 0
}

/// The prefix that the channel can translate with. Any other is dropped, never coerced.
#[must_use]
pub fn nat64_of(prefix: Option<Nat64Prefix>) -> (base: Option<[u8; 16]>)
    ensures
        base == (match prefix {
            Some(p) => if translates(p) {
                Some(p.octets)
            } else {
                None
            },
            None => None,
        }),
{
    match prefix {
        Some(p) => {
            if p.len == 96 && p.octets[12] == 0 && p.octets[13] == 0 && p.octets[14] == 0
                && p.octets[15] == 0 {
                Some(p.octets)
            } else {
                None
            }
        },
        None => None,
    }
}

/// What the platform says of the underlay.
#[derive(Debug, Clone, Copy, PartialEq, Eq)]
pub struct LinkFacts {
    /// It carries IPv4.
    pub v4: bool,
    /// It carries IPv6.
    pub v6: bool,
    /// The translating prefix it discovered.
    pub nat64: Option<Nat64Prefix>,
}

/// Which families a channel may be opened over.
#[derive(Debug, Clone, Copy, PartialEq, Eq, Structural)]
pub struct AttachFamilies {
    /// IPv4.
    pub v4: bool,
    /// IPv6.
    pub v6: bool,
    /// Whether there is a translating prefix that can be used.
    pub nat64: bool,
}

/// The rung of the ladder that a channel is opened on.
#[derive(Debug, Clone, Copy, PartialEq, Eq, Structural)]
pub enum Rung {
    /// QUIC: the only one there is.
    Quic,
}

/// What one channel is opened with.
#[derive(Debug)]
pub struct TransportConfig {
    /// The coordination names.
    pub coordination_endpoints: Vec<String>,
    /// The families.
    pub families: AttachFamilies,
    /// The rung.
    pub rung: Rung,
    /// Whether the client is in the background of a mobile device.
    pub mobile_background: bool,
}

/// The transport, once bound: where to, and over which families.
#[derive(Debug)]
pub struct ControlTransportBinding {
    /// The coordination names.
    pub names: Vec<String>,
    /// The families.
    pub families: AttachFamilies,
}

/// The families that link facts allow: a translating prefix counts only where it can
/// be used.
pub open spec fn families_of(facts: LinkFacts) -> AttachFamilies {
    AttachFamilies {
        v4: facts.v4,
        v6: facts.v6,
        nat64: facts.nat64 matches Some(p) && translates(p),
    }
}

/// A copy of a list of texts.
fn copy_names(names: &Vec<String>) -> (copy: Vec<String>)
    ensures
        copy@ == names@,
{
    let mut copy: Vec<String> = Vec::new();
    let mut i: usize = 0;
    while i < names.len()
        invariant
            i <= names@.len(),
            copy@.len() == i,
            forall|j: int| 0 <= j < i ==> copy@[j] == names@[j],
        decreases names@.len() - i,
    {
        copy.push(names[i].clone());
        i += 1;
    }
    assert(copy@ =~= names@);
    copy
}

/// Where a binding stands: what was asked last.
#[derive(Debug, Clone, Copy, PartialEq, Eq)]
pub enum BindStage {
    /// The element was asked for an identity.
    Identifying,
    /// The platform was asked for the underlay's facts.
    Linking,
    /// It was asked whether some family can reach a coordination endpoint.
    Attaching {
        /// The families.
        families: AttachFamilies,
        /// The prefix to translate with.
        nat64: Option<[u8; 16]>,
    },
    /// The transport was asked for.
    Building {
        /// The families.
        families: AttachFamilies,
    },
    /// It ended.
    Ended,
}

/// How what was asked last was answered.
#[derive(Debug, Clone, Copy, PartialEq, Eq)]
pub enum BindEvent {
    /// Whether the element reports an identity; the code of its refusal.
    Identity(Result<(), ReasonCode>),
    /// The underlay's facts, where the platform gives them.
    Facts(Option<LinkFacts>),
    /// Whether some family can reach a coordination endpoint.
    Attachable(bool),
    /// Whether the transport was built; the code of the refusal.
    Built(Result<(), ReasonCode>),
}

/// What to do next.
#[derive(Debug)]
pub enum BindAction {
    /// Ask the element for an identity.
    Identify,
    /// Ask the platform for the underlay's facts.
    ReadLink,
    /// Ask whether some of these families can reach a coordination endpoint.
    Attach(AttachFamilies),
    /// Build the transport, for the enrolment's pins and endpoints, translating under
    /// this prefix.
    Build {
        /// The prefix.
        nat64: Option<[u8; 16]>,
    },
    /// Nothing: it is bound.
    Bound(ControlTransportBinding),
    /// Nothing: it was refused.
    Refused(Diagnostic),
}

/// What to do next, as mathematics.
#[verifier::ext_equal]
pub enum BindActionModel {
    /// Ask for an identity.
    Identify,
    /// Ask for the underlay's facts.
    ReadLink,
    /// Ask whether some family can reach a coordination endpoint.
    Attach(AttachFamilies),
    /// Build the transport.
    Build {
        /// The prefix to translate with.
        nat64: Option<[u8; 16]>,
    },
    /// It is bound.
    Bound {
        /// The coordination names.
        names: Seq<String>,
        /// The families.
        families: AttachFamilies,
    },
    /// It was refused.
    Refused(Diagnostic),
}

impl BindAction {
    /// The action, as mathematics.
    pub open spec fn view(self) -> BindActionModel {
        match self {
            BindAction::Identify => BindActionModel::Identify,
            BindAction::ReadLink => BindActionModel::ReadLink,
            BindAction::Attach(families) => BindActionModel::Attach(families),
            BindAction::Build { nat64 } => BindActionModel::Build { nat64 },
            BindAction::Bound(b) => BindActionModel::Bound { names: b.names@, families: b.families },
            BindAction::Refused(d) => BindActionModel::Refused(d),
        }
    }
}

/// An event that answers what was asked.
pub open spec fn bind_fits(stage: BindStage, event: BindEvent) -> bool {
    match stage {
        BindStage::Identifying => event is Identity,
        BindStage::Linking => event is Facts,
        BindStage::Attaching { .. } => event is Attachable,
        BindStage::Building { .. } => event is Built,
        BindStage::Ended => false,
    }
}

/// The prefix of link facts that can be translated with.
pub open spec fn prefix_of(facts: LinkFacts) -> Option<[u8; 16]> {
    match facts.nat64 {
        Some(p) => if translates(p) {
            Some(p.octets)
        } else {
            None
        },
        None => None,
    }
}

/// A binding begins with the identity.
pub open spec fn bind_first() -> (BindStage, BindActionModel) {
    (BindStage::Identifying, BindActionModel::Identify)
}

/// A binding that ended under this code.
pub open spec fn bind_refused(code: ReasonCode) -> (BindStage, BindActionModel) {
    (BindStage::Ended, BindActionModel::Refused(observed(code)))
}

/// What follows an answer: after the identity the underlay's facts, then whether a
/// family can attach, and only then the transport. Every refusal ends it.
pub open spec fn bind_next(
    enrolment: ControlPlaneEnrolment,
    stage: BindStage,
    event: BindEvent,
) -> (BindStage, BindActionModel) {
    match (stage, event) {
        (BindStage::Identifying, BindEvent::Identity(Ok(()))) => (
            BindStage::Linking,
            BindActionModel::ReadLink,
        ),
        (BindStage::Identifying, BindEvent::Identity(Err(code))) => bind_refused(code),
        (BindStage::Linking, BindEvent::Facts(Some(f))) => (
            BindStage::Attaching { families: families_of(f), nat64: prefix_of(f) },
            BindActionModel::Attach(families_of(f)),
        ),
        (BindStage::Attaching { families, nat64 }, BindEvent::Attachable(true)) => (
            BindStage::Building { families },
            BindActionModel::Build { nat64 },
        ),
        (BindStage::Building { families }, BindEvent::Built(Ok(()))) => (
            BindStage::Ended,
            BindActionModel::Bound {
                names: enrolment.endpoints@.map_values(|e: ControlEndpoint| e.server_name),
                families,
            },
        ),
        (BindStage::Building { .. }, BindEvent::Built(Err(code))) => bind_refused(code),
        _ => bind_refused(ReasonCode::ControlUnreachable),
    }
}

/// Takes the answer to what was asked last. The identity is asked for first, so that a
/// device whose key is locked is told so, and not that the network is down.
pub fn bind_step(enrolment: &ControlPlaneEnrolment, stage: BindStage, event: BindEvent) -> (r: (
    BindStage,
    BindAction,
))
    requires
        bind_fits(stage, event),
    ensures
        (r.0, r.1@) == bind_next(*enrolment, stage, event),
{
    match (stage, event) {
        (BindStage::Identifying, BindEvent::Identity(Ok(()))) => (
            BindStage::Linking,
            BindAction::ReadLink,
        ),
        (BindStage::Linking, BindEvent::Facts(Some(f))) => {
            let nat64 = nat64_of(f.nat64);
            let families = AttachFamilies { v4: f.v4, v6: f.v6, nat64: nat64.is_some() };
            (BindStage::Attaching { families, nat64 }, BindAction::Attach(families))
        },
        (BindStage::Attaching { families, nat64 }, BindEvent::Attachable(true)) => (
            BindStage::Building { families },
            BindAction::Build { nat64 },
        ),
        (BindStage::Building { families }, BindEvent::Built(Ok(()))) => (
            BindStage::Ended,
            BindAction::Bound(
                ControlTransportBinding { names: enrolment.coordination_names(), families },
            ),
        ),
        (BindStage::Identifying, BindEvent::Identity(Err(code)))
        | (BindStage::Building { .. }, BindEvent::Built(Err(code))) => (
            BindStage::Ended,
            BindAction::Refused(refusal(code)),
        ),
        _ => (BindStage::Ended, BindAction::Refused(refusal(ReasonCode::ControlUnreachable))),
    }
}

/// Where a binding stands after a run of answers, and what to do next.
pub open spec fn bind_after(enrolment: ControlPlaneEnrolment, events: Seq<BindEvent>) -> (
    BindStage,
    BindActionModel,
)
    decreases events.len(),
{
    if events.len() == 0 {
        bind_first()
    } else {
        bind_next(enrolment, bind_after(enrolment, events.drop_last()).0, events.last())
    }
}

/// A run of answers, each to what was asked.
pub open spec fn bind_answers(enrolment: ControlPlaneEnrolment, events: Seq<BindEvent>) -> bool
    decreases events.len(),
{
    events.len() > 0 ==> {
        &&& bind_answers(enrolment, events.drop_last())
        &&& bind_fits(bind_after(enrolment, events.drop_last()).0, events.last())
    }
}

/// An element that reports no identity ends the binding under its own code: the
/// underlay is not asked about and nothing is built.
pub proof fn a_refused_identity_ends_the_binding(
    enrolment: ControlPlaneEnrolment,
    events: Seq<BindEvent>,
    code: ReasonCode,
)
    requires
        bind_answers(enrolment, events),
        events.len() > 0,
        events[0] == BindEvent::Identity(Err::<(), ReasonCode>(code)),
    ensures
        events.len() == 1,
        bind_after(enrolment, events) == bind_refused(code),
    decreases events.len(),
{
    if events.len() > 1 {
        assert(events.drop_last()[0] == events[0]);
        a_refused_identity_ends_the_binding(enrolment, events.drop_last(), code);
    } else {
        assert(bind_after(enrolment, events.drop_last()) == bind_first());
    }
}

/// The transport is built only after an identity was reported, the underlay's facts were
/// given and some family can reach a coordination endpoint, in that order.
pub proof fn a_transport_is_built_last(
    enrolment: ControlPlaneEnrolment,
    events: Seq<BindEvent>,
)
    requires
        bind_answers(enrolment, events),
        bind_after(enrolment, events).1 is Build,
    ensures
        events.len() == 3,
        events[0] matches BindEvent::Identity(identity) && identity is Ok,
        events[1] matches BindEvent::Facts(Some(f)) && bind_after(enrolment, events) == (
            BindStage::Building { families: families_of(f) },
            BindActionModel::Build { nat64: prefix_of(f) },
        ),
        events[2] == BindEvent::Attachable(true),
{
    assert(events.len() > 0);
    let e2 = events.drop_last();
    assert(bind_after(enrolment, e2).0 is Attaching);
    assert(e2.len() > 0);
    let e1 = e2.drop_last();
    assert(bind_after(enrolment, e1).0 is Linking);
    assert(e1.len() > 0);
    let e0 = e1.drop_last();
    assert(bind_after(enrolment, e0).0 is Identifying);
    if e0.len() > 0 {
        assert(bind_next(enrolment, bind_after(enrolment, e0.drop_last()).0, e0.last()).0
            !is Identifying);
    }
    assert(e1.last() == events[0]);
}

impl ControlTransportBinding {
    /// Begins to bind the transport: the identity is asked for before anything else.
    #[must_use]
    pub fn bind() -> (r: (BindStage, BindAction))
        ensures
            (r.0, r.1@) == bind_first(),
    {
        (BindStage::Identifying, BindAction::Identify)
    }

    /// A binding over a transport that exists already.
    #[must_use]
    pub fn over(coordination_names: Vec<String>, families: AttachFamilies) -> (b: Self)
        ensures
            b == (ControlTransportBinding { names: coordination_names, families }),
    {
        ControlTransportBinding { names: coordination_names, families }
    }

    /// The families.
    #[must_use]
    pub fn families(&self) -> (f: AttachFamilies)
        ensures
            f == self.families,
    {
        self.families
    }

    /// What one channel is opened with: the only rung there is.
    #[must_use]
    pub fn attach_config(&self, mobile_background: bool) -> (c: TransportConfig)
        ensures
            c.coordination_endpoints@ == self.names@,
            c.families == self.families,
            c.rung == Rung::Quic,
            c.mobile_background == mobile_background,
    {
        TransportConfig {
            coordination_endpoints: copy_names(&self.names),
            families: self.families,
            rung: Rung::Quic,
            mobile_background,
        }
    }
}

} // verus!
