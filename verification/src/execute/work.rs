//! A command from its submission to its answer.

use vstd::prelude::*;

use crate::dispatch::{Lifecycle, Outcome, Submission};
use crate::enforce::Enforcement;
use crate::events::{CoreEventKind, SessionEvent, TransitionRecord};
use crate::execute::connect::{connect_next, ConnectEvent, ConnectRun};
use crate::execute::establishment::{carry_next, CarryEvent, CarryRun};
use crate::execute::sweep::{closed_with, enforced, one_torn_down, sweep_next, sweep_on, Sweep};
use crate::instance::{advanced, completed, entered, panicked, CatalogueEntry, CoreModel};
use crate::pairing::PairingCeremonies;
use crate::reason::Diagnostic;
use crate::session_table::{Applied, SessionModel};
use crate::types::SessionId;

verus! {

/// One step of the work that is done for a command.
pub enum Work {
    /// A step of connecting.
    Connect(ConnectRun, ConnectEvent),
    /// A step of establishing a session.
    Carry(CarryRun, CarryEvent),
    /// A walk over the sessions begins.
    Walk(Sweep),
    /// A step of a walk.
    Walked(Sweep, Applied),
    /// A session is torn down, to be closed.
    Close(SessionId),
    /// A session that was closed answered.
    Closed(SessionId, Applied, Option<String>),
    /// A session changed: its tunnel, its pump, its leg or its candidates.
    Session(SessionModel),
    /// Every session is torn down.
    Stop,
    /// What is enforced changed; and a diagnostic about it.
    Enforce(Enforcement, Option<Diagnostic>),
    /// A lifecycle phase was taken.
    Phase(Lifecycle),
    /// The pairing state changed.
    Pair(PairingCeremonies),
    /// A transition was told.
    Transition(TransitionRecord, Option<String>),
    /// A local fact about a session was told.
    Fact(SessionEvent, Option<String>),
    /// A diagnostic was told.
    Diagnose(Diagnostic),
}

/// The core after one step of work.
pub open spec fn worked(m: CoreModel, work: Work) -> CoreModel {
    match work {
        Work::Connect(run, event) => connect_next(m, run, event).0,
        Work::Carry(run, event) => carry_next(m, run, event).0,
        Work::Walk(s) => sweep_on(m, s, 0).0,
        Work::Walked(s, applied) => sweep_next(m, s, applied).0,
        Work::Close(session_id) => one_torn_down(m, session_id),
        Work::Closed(session_id, applied, actor) => closed_with(m, session_id, applied, actor),
        Work::Session(session) => m.with_session(session),
        Work::Stop => m.all_torn_down(),
        Work::Enforce(e, publish) => enforced(m, e, publish),
        Work::Phase(lifecycle) => CoreModel { lifecycle, ..m },
        Work::Pair(pairing) => CoreModel { pairing, ..m },
        Work::Transition(record, actor) => m.transitioned(record, actor),
        Work::Fact(event, actor) => m.session_told(event, actor),
        Work::Diagnose(diagnostic) => m.diagnosed(diagnostic),
    }
}

/// The core after some work.
pub open spec fn after_work(m: CoreModel, works: Seq<Work>) -> CoreModel
    decreases works.len(),
{
    if works.len() == 0 {
        m
    } else {
        worked(after_work(m, works.drop_last()), works.last())
    }
}

/// What no work changes.
pub open spec fn same_instance(before: CoreModel, after: CoreModel) -> bool {
    &&& after.generation == before.generation
    &&& after.poisoned == before.poisoned
    &&& after.profile == before.profile
    &&& after.identity == before.identity
    &&& after.instance_id == before.instance_id
    &&& after.stream.closed == before.stream.closed
}

proof fn a_step_keeps_the_instance(m: CoreModel, work: Work)
    ensures
        same_instance(m, worked(m, work)),
{
}

/// No work advances the generation, or poisons the instance: only the answer to a command
/// does the one, and only a panic the other.
pub proof fn work_keeps_the_generation(m: CoreModel, works: Seq<Work>)
    ensures
        same_instance(m, after_work(m, works)),
    decreases works.len(),
{
    if works.len() > 0 {
        work_keeps_the_generation(m, works.drop_last());
        a_step_keeps_the_instance(after_work(m, works.drop_last()), works.last());
    }
}

/// The newest event of a stream is this one.
pub open spec fn tells_last(m: CoreModel, kind: CoreEventKind, actor: Option<String>) -> bool {
    &&& m.stream.queue.len() > 0
    &&& m.stream.queue.last().kind == kind
    &&& m.stream.queue.last().actor_principal == actor
}

/// The answer to a command, whatever work is done for it. A poisoned instance refuses and
/// keeps everything. A command that is refused, at the entrance or by the work, leaves the
/// generation as it was, and where the stream is open a refusal is its newest event. One
/// that succeeds advances the generation exactly where the operation is mutating, and its
/// completion is the newest event, for the principal that submitted it.
pub proof fn a_command_is_answered(
    m: CoreModel,
    submission: Submission,
    entry: CatalogueEntry,
    works: Seq<Work>,
    executed: Result<Outcome, Diagnostic>,
)
    requires
        m.stream.capacity >= 8,
    ensures
        ({
            let actor = submission.actor_principal;
            let (inside, let_in) = entered(m, submission, entry);
            let (after, answer) = completed(
                after_work(inside, works),
                submission,
                entry,
                executed,
            );
            &&& m.poisoned ==> inside == m && let_in == Err::<(), Diagnostic>(panicked())
            &&& let_in matches Err(d) ==> {
                &&& inside.generation == m.generation
                &&& !m.poisoned && !m.stream.closed ==> tells_last(
                    inside,
                    CoreEventKind::CommandRejected { op: entry.name, diagnostic: d },
                    actor,
                )
            }
            &&& let_in is Ok ==> {
                &&& inside == m
                &&& answer is Err ==> after.generation == m.generation
                &&& executed is Err && !m.stream.closed ==> tells_last(
                    after,
                    CoreEventKind::CommandRejected { op: entry.name, diagnostic: executed->Err_0 },
                    actor,
                )
                &&& answer is Ok ==> {
                    &&& after.generation == (if entry.mutating {
                        advanced(m.generation)
                    } else {
                        m.generation
                    })
                    &&& !m.stream.closed ==> tells_last(
                        after,
                        CoreEventKind::CommandCompleted {
                            op: entry.name,
                            result: executed->Ok_0.result,
                        },
                        actor,
                    )
                }
                &&& answer is Ok <==> executed is Ok && executed->Ok_0.effects > 0
            }
        }),
{
    let inside = entered(m, submission, entry).0;
    work_keeps_the_generation(inside, works);
}

} // verus!
