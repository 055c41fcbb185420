//! The core instance: what it holds, what it lets in, and what it tells.
//!
//! A command passes one entrance before any work is done for it, and whatever comes of
//! it is told on the one ordered stream: a refusal is an event too, never silence. An
//! instance that was poisoned refuses everything from then on.

use vstd::prelude::*;

use crate::bridge::StoreBridge;
use crate::build_identity::{BuildStamp, CoreBuildIdentity, CORE_VERSION};
use crate::cp_binding::transport::ControlTransportBinding;
use crate::dispatch::{self, disposed, parameters_fit, CoreCommand, Disposition, Lifecycle, Outcome,
    Refused, Submission};
use crate::enforce::{Enforcement, Ruleset};
use crate::events::{CoreEvent, CoreEventKind, EventStream, SessionEvent, StreamModel,
    TransitionRecord};
use crate::gateway::GatewayState;
use crate::journal::CoreSessionJournal;
use crate::lite::{name_of, Profile};
use crate::pairing::{CeremoniesModel, PairingCeremonies};
use crate::planes::{new_shared, nothing_admitted, ControlPlanePort, DataPlaneView, PlanesModel};
use crate::reason::{Component, Diagnostic, Evidence, ReasonCode};
use crate::session::{DurableSession, SessionState};
use crate::session_table::{named, some_connected, Applied, SessionModel, SessionTable};
use crate::types::{DeviceId, SessionId};

verus! {

/// What the local ledger keeps.
#[derive(Debug, Clone, Copy, PartialEq, Eq)]
pub enum LedgerRecord {
    /// A transition.
    Transition(TransitionRecord),
    /// A local fact about a session.
    SessionEvent(SessionEvent),
    /// A diagnostic.
    Diagnostic(Diagnostic),
}

/// What an operation's request must carry so that a retry is the same request.
#[derive(Debug, Clone, Copy, PartialEq, Eq, Structural)]
pub enum Idempotency {
    /// Nothing: the operation is idempotent by itself.
    Natural,
    /// A key.
    Key,
    /// The version that the caller saw.
    Version,
}

/// One operation, as the catalogue lists it.
#[derive(Debug, Clone, Copy, PartialEq, Eq)]
pub struct CatalogueEntry {
    /// Its name.
    pub name: &'static str,
    /// Whether it changes anything.
    pub mutating: bool,
    /// What a request must carry.
    pub idempotency: Idempotency,
}

/// Everything an instance is given when it is created.
#[derive(Debug)]
pub struct CoreParts {
    /// The ABI major that the shell was compiled against.
    pub abi_major_expected: u32,
    /// This build's.
    pub abi_major: u32,
    /// This build's ABI minor.
    pub abi_minor: u32,
    /// The digest of the schema set.
    pub schema_digest: Vec<u8>,
    /// A stable tag for the cryptographic provider in force.
    pub crypto_provider: String,
    /// How the vault key is held, as a readable tag.
    pub sek_custody: String,
    /// Whether the identity element is hardware-backed, as the adapter reports it.
    pub hardware_backed: bool,
    /// The stable name of the platform adapter.
    pub adapter_binding: &'static str,
    /// What the build pipeline knows.
    pub stamp: BuildStamp,
    /// The build profile.
    pub profile: Profile,
    /// The event queue's watermark.
    pub event_capacity: usize,
    /// The name of this instance, unique within the process.
    pub instance_id: u64,
}

/// Whether the durable store is open.
#[derive(Debug, Clone, Copy, PartialEq, Eq, Structural)]
pub enum VaultState {
    /// It is not. Every durable operation is refused.
    Absent,
    /// It is, and the bridge owns it.
    Open,
}

/// A live instance.
pub struct Core {
    /// What this build is.
    pub identity: CoreBuildIdentity,
    /// What the ledger is still to take, oldest first.
    pub ledger: Vec<LedgerRecord>,
    /// The one ordered stream.
    pub events: EventStream,
    /// The way in for control-plane facts, and the cache behind it.
    pub port: ControlPlanePort,
    /// Whether the instance is poisoned.
    pub poisoned: bool,
    /// The name of this instance.
    pub instance_id: u64,
    /// How many mutating commands were accepted.
    pub generation: u64,
    /// Every session this device knows about.
    pub sessions: SessionTable,
    /// The gateway role.
    pub gateway: GatewayState,
    /// The durable half, once the store is open.
    pub bridge: Option<StoreBridge>,
    /// What of each session survives a restart.
    pub journal: CoreSessionJournal,
    /// Whether the store is open.
    pub vault_open: bool,
    /// The host's lifecycle phase, as it was last told.
    pub lifecycle: Lifecycle,
    /// What is enforced.
    pub enforcement: Enforcement,
    /// The bound control transport.
    pub control: Option<ControlTransportBinding>,
    /// The pairing ceremonies.
    pub pairing: PairingCeremonies,
    /// The build profile.
    pub profile: Profile,
}

/// What an instance holds.
#[verifier::ext_equal]
pub struct CoreModel {
    /// What this build is.
    pub identity: CoreBuildIdentity,
    /// What the ledger is still to take, oldest first.
    pub ledger: Seq<LedgerRecord>,
    /// The one ordered stream.
    pub stream: StreamModel,
    /// The cache of control-plane facts, and what is queued to be made durable.
    pub planes: PlanesModel,
    /// Whether the instance is poisoned.
    pub poisoned: bool,
    /// The name of this instance.
    pub instance_id: u64,
    /// How many mutating commands were accepted.
    pub generation: u64,
    /// Every session, by its name.
    pub sessions: Map<Seq<u8>, SessionModel>,
    /// The gateway role.
    pub gateway: GatewayState,
    /// The durable half.
    pub bridge: Option<StoreBridge>,
    /// What of each session survives a restart, by its name.
    pub journal: Map<Seq<u8>, DurableSession>,
    /// Whether the store is open.
    pub vault_open: bool,
    /// The host's lifecycle phase.
    pub lifecycle: Lifecycle,
    /// What is enforced.
    pub enforcement: Enforcement,
    /// The bound control transport.
    pub control: Option<ControlTransportBinding>,
    /// The pairing ceremonies.
    pub pairing: PairingCeremonies,
    /// The build profile.
    pub profile: Profile,
}

impl CoreModel {
    /// The stream can still number this many events.
    pub open spec fn room(self, n: int) -> bool {
        self.stream.next_seq + n <= u64::MAX
    }

    /// Every session stands under its own name.
    pub open spec fn named(self) -> bool {
        named(self.sessions)
    }

    /// After a record was put down for the ledger.
    pub open spec fn noted(self, record: LedgerRecord) -> CoreModel {
        CoreModel { ledger: self.ledger.push(record), ..self }
    }

    /// After an event was published.
    pub open spec fn told(self, kind: CoreEventKind, actor: Option<String>) -> CoreModel {
        CoreModel { stream: self.stream.published(kind, actor), ..self }
    }

    /// After a transition was recorded and published.
    pub open spec fn transitioned(self, record: TransitionRecord, actor: Option<String>) -> CoreModel {
        self.noted(LedgerRecord::Transition(record)).told(CoreEventKind::Transition(record), actor)
    }

    /// After a local fact about a session was recorded and published.
    pub open spec fn session_told(self, event: SessionEvent, actor: Option<String>) -> CoreModel {
        self.noted(LedgerRecord::SessionEvent(event)).told(CoreEventKind::SessionEvent(event), actor)
    }

    /// After a diagnostic was recorded and published.
    pub open spec fn diagnosed(self, diagnostic: Diagnostic) -> CoreModel {
        self.noted(LedgerRecord::Diagnostic(diagnostic)).told(
            CoreEventKind::Diagnostic(diagnostic),
            None,
        )
    }

    /// After a refusal was recorded and published.
    pub open spec fn rejected(
        self,
        op: &'static str,
        diagnostic: Diagnostic,
        actor: Option<String>,
    ) -> CoreModel {
        self.noted(LedgerRecord::Diagnostic(diagnostic)).told(
            CoreEventKind::CommandRejected { op, diagnostic },
            actor,
        )
    }

    /// After a session was put under its name.
    pub open spec fn with_session(self, session: SessionModel) -> CoreModel {
        CoreModel {
            sessions: self.sessions.insert(session.session_id.bytes@, session),
            ..self
        }
    }

    /// The session of a name, or one at rest where there is none.
    pub open spec fn session_or_new(self, session_id: SessionId, peer: DeviceId) -> SessionModel {
        if self.sessions.contains_key(session_id.bytes@) {
            self.sessions[session_id.bytes@]
        } else {
            SessionModel::fresh(session_id, peer, crate::session_table::idle())
        }
    }

    /// Where a session stands, if it is known.
    pub open spec fn state_of(self, session_id: SessionId) -> Option<SessionState> {
        if self.sessions.contains_key(session_id.bytes@) {
            Some(self.sessions[session_id.bytes@].machine.state)
        } else {
            None
        }
    }

    /// After a session's machine answered an event: what it now reports is kept, and
    /// the transition it took, if any, is recorded and published.
    pub open spec fn applied(
        self,
        session_id: SessionId,
        applied: Applied,
        actor: Option<String>,
    ) -> CoreModel {
        let kept = if self.sessions.contains_key(session_id.bytes@) {
            self.with_session(
                SessionModel {
                    machine: applied.report,
                    ..self.sessions[session_id.bytes@]
                },
            )
        } else {
            self
        };
        match applied.record {
            Some(record) => kept.transitioned(record, actor),
            None => kept,
        }
    }

    /// After the instance was poisoned: the panic was recorded and published, and the
    /// stream is closed. One that was poisoned stays as it is.
    pub open spec fn after_poison(self) -> CoreModel {
        if self.poisoned {
            self
        } else {
            let told = self.diagnosed(panicked());
            CoreModel {
                poisoned: true,
                stream: StreamModel { closed: true, ..told.stream },
                ..told
            }
        }
    }

    /// After every session was torn down.
    pub open spec fn all_torn_down(self) -> CoreModel {
        CoreModel {
            sessions: Map::new(
                |k: Seq<u8>| self.sessions.contains_key(k),
                |k: Seq<u8>| self.sessions[k].torn_down(),
            ),
            ..self
        }
    }
}

/// The diagnostic of an ABI major that does not match.
pub open spec fn abi_mismatch(shell: u32, core: u32) -> Diagnostic {
    Diagnostic {
        code: ReasonCode::InternalAbiVersionMismatch,
        component: Component::Diagnostics,
        evidence: Evidence::Abi { shell_abi_major: shell, core_abi_min: core, core_abi_max: core },
    }
}

/// The code of a request that lacks what its operation must carry.
pub open spec fn precondition_missing(entry: CatalogueEntry, submission: Submission) -> Option<
    ReasonCode,
> {
    match entry.idempotency {
        Idempotency::Key => if submission.idempotency_key is None {
            Some(ReasonCode::MgmtPreconditionFailed)
        } else {
            None
        },
        Idempotency::Version => if submission.if_version is None {
            Some(ReasonCode::MgmtPreconditionFailed)
        } else {
            None
        },
        Idempotency::Natural => None,
    }
}

/// The code of a request that is refused at the entrance, or `None` where it lets it through:
/// first what the request must carry, then the profile, then the parameters, then
/// whether this build performs the operation at all.
pub open spec fn refused_at_entry(
    profile: Profile,
    entry: CatalogueEntry,
    submission: Submission,
) -> Option<ReasonCode> {
    if precondition_missing(entry, submission) is Some {
        precondition_missing(entry, submission)
    } else if profile == Profile::CoreLite {
        Some(ReasonCode::PlatformAdapterUnavailable)
    } else if !parameters_fit(submission.op, submission.params@) {
        Some(ReasonCode::ProtoMalformedMessage)
    } else {
        match disposed(submission.op) {
            Disposition::NotWired { code, .. } => Some(code),
            Disposition::Executes => None,
        }
    }
}

/// The invariant that an operation which did nothing breaks.
pub const NO_EFFECT: &'static str =
    "an operation dispatch declared EXECUTES produced no observable effect";

/// The diagnostic of an operation that did nothing.
pub open spec fn no_effect() -> Diagnostic {
    Diagnostic {
        code: ReasonCode::InternalInvariantViolated,
        component: Component::ManagementInterface,
        evidence: Evidence::Invariant(NO_EFFECT),
    }
}

/// What a caller of the management interface is refused with.
pub open spec fn refused_with(code: ReasonCode) -> Diagnostic {
    Diagnostic::plain(code, Component::ManagementInterface)
}

/// The diagnostic that every call of a poisoned instance gets.
pub open spec fn panicked() -> Diagnostic {
    Diagnostic::plain(ReasonCode::InternalCorePanic, Component::Diagnostics)
}

/// What an operation must carry and does not.
#[must_use]
pub fn missing_precondition(entry: CatalogueEntry, submission: &Submission) -> (code: Option<
    ReasonCode,
>)
    ensures
        code == precondition_missing(entry, *submission),
{
    match entry.idempotency {
        Idempotency::Key => {
            if submission.idempotency_key.is_none() {
                Some(ReasonCode::MgmtPreconditionFailed)
            } else {
                None
            }
        },
        Idempotency::Version => {
            if submission.if_version.is_none() {
                Some(ReasonCode::MgmtPreconditionFailed)
            } else {
                None
            }
        },
        Idempotency::Natural => None,
    }
}

/// Whether this build performs an operation.
#[must_use]
pub fn executes(op: CoreCommand) -> (b: bool)
    ensures
        b == (disposed(op) is Executes),
{
    dispatch::disposition(op).executes()
}

/// Every operation of the catalogue that this build refuses, with its code and why.
#[must_use]
pub fn unimplemented() -> (list: Vec<Refused>)
    ensures
        list@ == dispatch::refusals(dispatch::all_commands()),
{
    dispatch::not_wired()
}

/// The instance that is created, or why none is.
pub open spec fn created(parts: CoreParts, r: Result<Core, Diagnostic>) -> bool {
    match r {
        Err(d) => parts.abi_major_expected != parts.abi_major && d == abi_mismatch(
            parts.abi_major_expected,
            parts.abi_major,
        ),
        Ok(core) => {
            &&& parts.abi_major_expected == parts.abi_major
            &&& core.wf()
            &&& core.identity == (CoreBuildIdentity {
                core_version: CORE_VERSION,
                abi_major: parts.abi_major,
                abi_minor: parts.abi_minor,
                protocol_epoch_min: 1,
                protocol_epoch_max: 1,
                schema_digest: parts.schema_digest,
                reason_registry_version: parts.stamp.reason_registry_version,
                crypto_provider: parts.crypto_provider,
                profile: name_of(parts.profile),
                target_triple: parts.stamp.target_triple,
                source_commit: parts.stamp.source_commit,
                hardware_backed: parts.hardware_backed,
                sek_custody: parts.sek_custody,
                adapter_binding: parts.adapter_binding,
            })
            &&& core.ledger@.len() == 0
            &&& core.events@ == (StreamModel {
                queue: Seq::empty(),
                next_seq: 1,
                pending_gap: None,
                woken: false,
                closed: false,
                capacity: if parts.event_capacity < 8 {
                    8
                } else {
                    parts.event_capacity
                },
            })
            &&& core@.planes == nothing_admitted()
            &&& !core.poisoned
            &&& core.instance_id == parts.instance_id
            &&& core.generation == 0
            &&& core.sessions@ == Map::<Seq<u8>, SessionModel>::empty()
            &&& core.journal@ == Map::<Seq<u8>, DurableSession>::empty()
            &&& core.gateway.admitted@.len() == 0
            &&& core.gateway.grants@.len() == 0
            &&& core.gateway.requested_max_peers == 0
            &&& core.gateway.floor_bits_per_sec == 0
            &&& core.bridge is None
            &&& !core.vault_open
            &&& core.lifecycle == Lifecycle::Foreground
            &&& core.enforcement == (Enforcement {
                desired: Ruleset::Blocked,
                next_generation: 1,
                handle: None,
                applied: None,
            })
            &&& core.control is None
            &&& core.pairing.enrolment is None
            &&& core.pairing.tk_public is None
            &&& core.pairing@ == (CeremoniesModel {
                begun: Map::empty(),
                offers: Map::empty(),
            })
            &&& core.profile == parts.profile
        },
    }
}

impl Core {
    /// Everything that is held is well formed.
    pub open spec fn wf(self) -> bool {
        &&& self.events.wf()
        &&& self.port.wf()
        &&& self.sessions.wf()
        &&& self.gateway.wf()
        &&& self.journal.wf()
        &&& self.pairing.wf()
    }

    /// What the instance holds.
    pub open spec fn view(self) -> CoreModel {
        CoreModel {
            identity: self.identity,
            ledger: self.ledger@,
            stream: self.events@,
            planes: self.port@,
            poisoned: self.poisoned,
            instance_id: self.instance_id,
            generation: self.generation,
            sessions: self.sessions@,
            gateway: self.gateway,
            bridge: self.bridge,
            journal: self.journal@,
            vault_open: self.vault_open,
            lifecycle: self.lifecycle,
            enforcement: self.enforcement,
            control: self.control,
            pairing: self.pairing,
            profile: self.profile,
        }
    }

    /// Creates an instance. The ABI is checked before anything else: a shell that was
    /// compiled against another major is refused by name.
    pub fn create(parts: CoreParts) -> (r: Result<Self, Diagnostic>)
        ensures
            created(parts, r),
    {
        if parts.abi_major_expected != parts.abi_major {
            return Err(
                Diagnostic {
                    code: ReasonCode::InternalAbiVersionMismatch,
                    component: Component::Diagnostics,
                    evidence: Evidence::Abi {
                        shell_abi_major: parts.abi_major_expected,
                        core_abi_min: parts.abi_major,
                        core_abi_max: parts.abi_major,
                    },
                },
            );
        }
        let identity = match CoreBuildIdentity::assemble(
            parts.abi_major,
            parts.abi_minor,
            parts.schema_digest,
            parts.crypto_provider,
            parts.hardware_backed,
            parts.sek_custody,
            parts.adapter_binding,
            parts.stamp,
            parts.profile,
        ) {
            Ok(identity) => identity,
            Err(_) => {
                return Err(
                    Diagnostic::invariant_violated(
                        Component::Diagnostics,
                        "this version has no row in the epoch table",
                    ),
                );
            },
        };
        let restored: Vec<DurableSession> = Vec::new();
        let core = Core {
            identity,
            ledger: Vec::new(),
            events: EventStream::new(parts.event_capacity),
            port: ControlPlanePort::new(new_shared()),
            poisoned: false,
            instance_id: parts.instance_id,
            generation: 0,
            sessions: SessionTable::new(),
            gateway: GatewayState::unconfigured(),
            bridge: None,
            journal: CoreSessionJournal::new(restored),
            vault_open: false,
            lifecycle: Lifecycle::Foreground,
            enforcement: Enforcement::default(),
            control: None,
            pairing: PairingCeremonies::new(),
            profile: parts.profile,
        };
        Ok(core)
    }

    /// What this build is.
    #[must_use]
    pub fn build_identity(&self) -> (id: &CoreBuildIdentity)
        ensures
            *id == self.identity,
    {
        &self.identity
    }

    /// The name of this instance.
    #[must_use]
    pub fn instance_id(&self) -> (id: u64)
        ensures
            id == self.instance_id,
    {
        self.instance_id
    }

    /// How many mutating commands were accepted.
    #[must_use]
    pub fn generation(&self) -> (n: u64)
        ensures
            n == self.generation,
    {
        self.generation
    }

    /// Whether the instance is poisoned. Nothing clears it.
    #[must_use]
    pub fn is_poisoned(&self) -> (b: bool)
        ensures
            b == self.poisoned,
    {
        self.poisoned
    }

    /// The way in for control-plane facts: it writes, and does not read the data
    /// plane.
    pub fn control_plane_port(&mut self) -> (port: &mut ControlPlanePort)
        ensures
            *port == old(self).port,
            *final(self) == (Core { port: *final(port), ..*old(self) }),
    {
        &mut self.port
    }

    /// What the data plane may read of the control plane, and never write.
    #[must_use]
    pub fn data_plane_view(&self) -> (v: DataPlaneView<'_>)
        ensures
            v@ == self@.planes,
            self.wf() ==> v.wf(),
    {
        DataPlaneView::new(self.port.shared())
    }

    /// The host's lifecycle phase.
    #[must_use]
    pub fn lifecycle(&self) -> (phase: Lifecycle)
        ensures
            phase == self.lifecycle,
    {
        self.lifecycle
    }

    /// The next number of the stream.
    #[must_use]
    pub fn event_cursor(&self) -> (seq: u64)
        ensures
            seq == self@.stream.next_seq,
    {
        self.events.cursor()
    }

    /// What is enforced.
    #[must_use]
    pub fn enforcement(&self) -> (e: &Enforcement)
        ensures
            *e == self.enforcement,
    {
        &self.enforcement
    }

    /// Whether some session carries traffic on a path that was validated.
    #[must_use]
    pub fn any_session_connected(&self) -> (b: bool)
        requires
            self.wf(),
        ensures
            b == some_connected(self@.sessions),
    {
        self.sessions.any_connected()
    }

    fn record(&mut self, record: LedgerRecord)
        requires
            old(self).wf(),
        ensures
            final(self).wf(),
            final(self)@ == old(self)@.noted(record),
    {
        self.ledger.push(record);
    }

    fn tell(&mut self, kind: CoreEventKind, actor: Option<String>)
        requires
            old(self).wf(),
            old(self)@.room(1),
        ensures
            final(self).wf(),
            final(self)@ == old(self)@.told(kind, actor),
    {
        let _ = self.events.publish(kind, actor);
    }

    /// Hands over what the ledger is still to take, oldest first.
    pub fn take_records(&mut self) -> (records: Vec<LedgerRecord>)
        requires
            old(self).wf(),
        ensures
            final(self).wf(),
            records@ == old(self)@.ledger,
            final(self)@ == (CoreModel { ledger: Seq::empty(), ..old(self)@ }),
    {
        let mut records: Vec<LedgerRecord> = Vec::new();
        records.append(&mut self.ledger);
        assert(records@ =~= old(self).ledger@);
        assert(self.ledger@ =~= Seq::empty());
        records
    }

    /// Records a transition and publishes it: no machine moves without both.
    pub fn publish_transition(&mut self, record: TransitionRecord, actor: Option<String>)
        requires
            old(self).wf(),
            old(self)@.room(1),
        ensures
            final(self).wf(),
            final(self)@ == old(self)@.transitioned(record, actor),
    {
        self.record(LedgerRecord::Transition(record));
        self.tell(CoreEventKind::Transition(record), actor);
    }

    /// Records a local fact about a session and publishes it.
    pub fn publish_session_event(&mut self, event: SessionEvent, actor: Option<String>)
        requires
            old(self).wf(),
            old(self)@.room(1),
        ensures
            final(self).wf(),
            final(self)@ == old(self)@.session_told(event, actor),
    {
        self.record(LedgerRecord::SessionEvent(event));
        self.tell(CoreEventKind::SessionEvent(event), actor);
    }

    /// Records a diagnostic and publishes it.
    pub fn publish_diagnostic(&mut self, diagnostic: Diagnostic)
        requires
            old(self).wf(),
            old(self)@.room(1),
        ensures
            final(self).wf(),
            final(self)@ == old(self)@.diagnosed(diagnostic),
    {
        self.record(LedgerRecord::Diagnostic(diagnostic));
        self.tell(CoreEventKind::Diagnostic(diagnostic), None);
    }

    /// Poisons the instance: the panic is recorded and published once, and the stream
    /// is closed. What is enforced is left alone.
    pub fn poison(&mut self)
        requires
            old(self).wf(),
            old(self)@.room(1),
        ensures
            final(self).wf(),
            final(self)@ == old(self)@.after_poison(),
    {
        if self.poisoned {
            return;
        }
        self.poisoned = true;
        self.publish_diagnostic(
            Diagnostic::new(ReasonCode::InternalCorePanic, Component::Diagnostics),
        );
        self.events.close();
    }

    /// Refuses a command, and says so on the stream.
    fn reject(&mut self, name: &'static str, actor: Option<String>, code: ReasonCode) -> (d:
        Diagnostic)
        requires
            old(self).wf(),
            old(self)@.room(1),
        ensures
            final(self).wf(),
            d == refused_with(code),
            final(self)@ == old(self)@.rejected(name, d, actor),
    {
        let diagnostic = Diagnostic::new(code, Component::ManagementInterface);
        self.record(LedgerRecord::Diagnostic(diagnostic));
        self.tell(CoreEventKind::CommandRejected { op: name, diagnostic }, actor);
        diagnostic
    }

    /// The entrance that every command passes before any work is done for it. `Ok` hands
    /// it on to be executed; a refusal is recorded and published, so that it is never
    /// silent. A poisoned instance refuses without a word.
    pub fn submit(&mut self, submission: &Submission, entry: CatalogueEntry) -> (r: Result<
        (),
        Diagnostic,
    >)
        requires
            old(self).wf(),
            old(self)@.room(1),
        ensures
            final(self).wf(),
            (final(self)@, r) == entered(old(self)@, *submission, entry),
    {
        if self.poisoned {
            return Err(Diagnostic::new(ReasonCode::InternalCorePanic, Component::Diagnostics));
        }
        let actor = submission.actor_principal.clone();
        if let Some(code) = missing_precondition(entry, submission) {
            return Err(self.reject(entry.name, actor, code));
        }
        if self.profile == Profile::CoreLite {
            return Err(self.reject(entry.name, actor, ReasonCode::PlatformAdapterUnavailable));
        }
        if let Some(code) = dispatch::missing_parameter(submission.op, submission) {
            return Err(self.reject(entry.name, actor, code));
        }
        match dispatch::disposition(submission.op) {
            Disposition::NotWired { code, .. } => Err(self.reject(entry.name, actor, code)),
            Disposition::Executes => Ok(()),
        }
    }

    /// Takes what came of an executed command. A failure is recorded and published as
    /// a refusal. A success without any effect is a defect, and is reported as one.
    /// Only a mutating command advances the generation. What only the caller is told
    /// is handed back, and never reaches the stream.
    pub fn complete(
        &mut self,
        submission: &Submission,
        entry: CatalogueEntry,
        executed: Result<Outcome, Diagnostic>,
    ) -> (r: Result<Option<Vec<u8>>, Diagnostic>)
        requires
            old(self).wf(),
            old(self)@.room(1),
        ensures
            final(self).wf(),
            (final(self)@, r) == completed(old(self)@, *submission, entry, executed),
    {
        let actor = submission.actor_principal.clone();
        let outcome = match executed {
            Ok(outcome) => outcome,
            Err(diagnostic) => {
                self.record(LedgerRecord::Diagnostic(diagnostic));
                self.tell(CoreEventKind::CommandRejected { op: entry.name, diagnostic }, actor);
                return Err(diagnostic);
            },
        };
        if outcome.effects == 0 {
            let diagnostic = Diagnostic::invariant_violated(
                Component::ManagementInterface,
                NO_EFFECT,
            );
            self.record(LedgerRecord::Diagnostic(diagnostic));
            return Err(diagnostic);
        }
        if entry.mutating {
            self.generation = self.generation.wrapping_add(1);
        }
        self.tell(
            CoreEventKind::CommandCompleted { op: entry.name, result: outcome.result },
            actor,
        );
        Ok(outcome.response)
    }

    /// Where a session stands, if it is known.
    #[must_use]
    pub fn state_of(&self, session_id: SessionId) -> (state: Option<SessionState>)
        requires
            self.wf(),
        ensures
            state == self@.state_of(session_id),
    {
        match self.sessions.get(session_id) {
            Some(entry) => Some(entry.machine.state),
            None => None,
        }
    }

    /// Takes a machine's answer to an event. One for each transition that is told: the
    /// number of effects.
    pub fn apply(&mut self, session_id: SessionId, applied: Applied, actor: Option<String>) -> (n:
        u32)
        requires
            old(self).wf(),
            old(self)@.room(1),
        ensures
            final(self).wf(),
            final(self)@ == old(self)@.applied(session_id, applied, actor),
            n == effects_of(applied),
    {
        if let Some(entry) = self.sessions.take(session_id) {
            let mut entry = entry;
            entry.machine = applied.report;
            self.sessions.put(entry);
        }
        assert(self@.sessions =~= (if old(self)@.sessions.contains_key(session_id.bytes@) {
            old(self)@.sessions.insert(
                session_id.bytes@,
                (SessionModel {
                    machine: applied.report,
                    ..old(self)@.sessions[session_id.bytes@]
                }),
            )
        } else {
            old(self)@.sessions
        }));
        match applied.record {
            Some(record) => {
                self.publish_transition(record, actor);
                1
            },
            None => 0,
        }
    }

    /// The next event, if there is one now.
    #[must_use]
    pub fn next_event(&mut self) -> (e: Option<CoreEvent>)
        requires
            old(self).wf(),
        ensures
            final(self).wf(),
            e == old(self)@.stream.readable(),
            final(self)@ == (CoreModel { stream: old(self)@.stream.after_look(), ..old(self)@ }),
    {
        self.events.next_event()
    }

    /// Cancels a wait that is in flight, or the next one.
    pub fn wake(&mut self)
        requires
            old(self).wf(),
        ensures
            final(self).wf(),
            final(self)@ == (CoreModel {
                stream: StreamModel { woken: true, ..old(self)@.stream },
                ..old(self)@
            }),
    {
        self.events.wake();
    }
}

/// What a command is answered: what the entrance says, and what is kept.
pub open spec fn entered(m: CoreModel, submission: Submission, entry: CatalogueEntry) -> (
    CoreModel,
    Result<(), Diagnostic>,
) {
    if m.poisoned {
        (m, Err(panicked()))
    } else {
        match refused_at_entry(m.profile, entry, submission) {
            Some(code) => (
                m.rejected(entry.name, refused_with(code), submission.actor_principal),
                Err(refused_with(code)),
            ),
            None => (m, Ok(())),
        }
    }
}

/// What an executed command is answered, and what is kept: a failure is told as a refusal,
/// a success without any effect is a defect, and only a mutating command that had an
/// effect advances the generation.
pub open spec fn completed(
    m: CoreModel,
    submission: Submission,
    entry: CatalogueEntry,
    executed: Result<Outcome, Diagnostic>,
) -> (CoreModel, Result<Option<Vec<u8>>, Diagnostic>) {
    match executed {
        Err(d) => (m.rejected(entry.name, d, submission.actor_principal), Err(d)),
        Ok(outcome) => if outcome.effects == 0 {
            (m.noted(LedgerRecord::Diagnostic(no_effect())), Err(no_effect()))
        } else {
            (
                CoreModel {
                    generation: if entry.mutating {
                        advanced(m.generation)
                    } else {
                        m.generation
                    },
                    ..m.told(
                        CoreEventKind::CommandCompleted { op: entry.name, result: outcome.result },
                        submission.actor_principal,
                    )
                },
                Ok(outcome.response),
            )
        },
    }
}

/// A poisoned instance refuses every command under the same code, whatever it is, and
/// changes nothing.
pub proof fn a_poisoned_instance_refuses_everything(
    m: CoreModel,
    submission: Submission,
    entry: CatalogueEntry,
)
    requires
        m.poisoned,
    ensures
        entered(m, submission, entry).0 == m,
        entered(m, submission, entry).1 matches Err(d) && d.code == ReasonCode::InternalCorePanic,
{
}

/// A command that is refused at the entrance is answered with a diagnostic, and the same diagnostic
/// is the newest event of a stream that is open: a refusal is never silent. Nothing else
/// but the ledger is touched.
pub proof fn a_refusal_is_never_silent(
    m: CoreModel,
    submission: Submission,
    entry: CatalogueEntry,
)
    requires
        !m.poisoned,
        !m.stream.closed,
        entered(m, submission, entry).1 is Err,
    ensures
        ({
            let (after, r) = entered(m, submission, entry);
            &&& after.stream.queue.last().kind == (CoreEventKind::CommandRejected {
                op: entry.name,
                diagnostic: r->Err_0,
            })
            &&& after.stream.queue.last().actor_principal == submission.actor_principal
            &&& after.generation == m.generation
            &&& after.sessions == m.sessions
            &&& after.enforcement == m.enforcement
        }),
{
}

/// Every operation that this build does not perform is refused at the entrance, with its own
/// code where nothing comes before it.
pub proof fn an_operation_that_is_not_performed_is_refused(
    profile: Profile,
    submission: Submission,
    entry: CatalogueEntry,
)
    requires
        !(disposed(submission.op) is Executes),
    ensures
        refused_at_entry(profile, entry, submission) is Some,
{
}

/// The lite profile performs no command.
pub proof fn the_lite_profile_performs_nothing(submission: Submission, entry: CatalogueEntry)
    ensures
        refused_at_entry(Profile::CoreLite, entry, submission) is Some,
{
}

/// How many effects a machine's answer has: one where it moved.
pub open spec fn effects_of(applied: Applied) -> u32 {
    if applied.record is Some {
        1
    } else {
        0
    }
}

/// The generation after one more mutating command.
pub open spec fn advanced(generation: u64) -> u64 {
    if generation == u64::MAX {
        0
    } else {
        (generation + 1) as u64
    }
}

} // verus!
