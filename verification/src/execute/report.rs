//! What an instance answers when it is asked how it stands.

use vstd::prelude::*;

use crate::establish::Row;
use crate::events::SessionEvent;
use crate::instance::{refused_with, Core, CoreModel};
use crate::reason::{Component, Diagnostic, ReasonCode};
use crate::session::{ConnectionState, PathClass, SessionState};
use crate::session_table::{lists_names, names_of, SessionModel};
use crate::types::{AddressFamily, SessionId};

verus! {

/// A candidate of this family is recorded.
pub open spec fn family_present(rows: Seq<Row>, family: AddressFamily) -> bool {
    exists|i: int|
        0 <= i < rows.len() && (#[trigger] rows[i]).candidate.endpoint.address.family_of()
            == family
}

fn has_family(rows: &Vec<Row>, family: AddressFamily) -> (b: bool)
    ensures
        b == family_present(rows@, family),
{
    let mut i: usize = 0;
    while i < rows.len()
        invariant
            i <= rows@.len(),
            forall|j: int|
                0 <= j < i ==> (#[trigger] rows@[j]).candidate.endpoint.address.family_of()
                    != family,
        decreases rows@.len() - i,
    {
        if rows[i].candidate.endpoint.address.family() == family {
            assert(rows@[i as int].candidate.endpoint.address.family_of() == family);
            return true;
        }
        i += 1;
    }
    false
}

/// What is told of one session.
pub open spec fn tells_session(
    m: CoreModel,
    session_id: SessionId,
    r: Result<SessionEvent, Diagnostic>,
) -> bool {
    r == (if m.sessions.contains_key(session_id.bytes@) {
        let session = m.sessions[session_id.bytes@];
        Ok::<SessionEvent, Diagnostic>(
            SessionEvent::CandidateUpdated {
                session_id,
                state: session.machine.state,
                single_family: family_present(session.rows, AddressFamily::V4) != family_present(
                    session.rows,
                    AddressFamily::V6,
                ),
            },
        )
    } else {
        Err::<SessionEvent, Diagnostic>(refused_with(ReasonCode::NetSessionClosedByUser))
    })
}

/// One session and what is known of its candidates, whether exactly one family has any
/// among it. A session that is not known is refused.
pub fn session_get(core: &Core, session_id: SessionId) -> (r: Result<SessionEvent, Diagnostic>)
    requires
        core.wf(),
    ensures
        tells_session(core@, session_id, r),
{
    match core.sessions.get(session_id) {
        None => Err(
            Diagnostic::new(ReasonCode::NetSessionClosedByUser, Component::ManagementInterface),
        ),
        Some(entry) => {
            let v4 = has_family(&entry.rows, AddressFamily::V4);
            let v6 = has_family(&entry.rows, AddressFamily::V6);
            Ok(
                SessionEvent::CandidateUpdated {
                    session_id,
                    state: entry.machine.state,
                    single_family: v4 != v6,
                },
            )
        },
    }
}

/// What one session contributes to how all of them stand.
#[derive(Debug, Clone, Copy, PartialEq, Eq)]
pub struct Contribution {
    /// Where the session stands.
    pub state: SessionState,
    /// Why.
    pub reason: Option<ReasonCode>,
    /// Whether what it carries is protected.
    pub in_protected_scope: bool,
    /// Whether it has a path.
    pub has_usable_path: bool,
}

/// What is not known to fail open is taken to fail closed.
pub const FAIL_CLOSED: bool = true;

/// What a session contributes.
pub open spec fn contributed(session: SessionModel) -> Contribution {
    Contribution {
        state: session.machine.state,
        reason: session.machine.reason,
        in_protected_scope: true,
        has_usable_path: session.machine.has_path,
    }
}

/// What each session contributes, in the order of `names`.
pub open spec fn contributes(m: CoreModel, names: Seq<Seq<u8>>, list: Seq<Contribution>) -> bool {
    list == names.map_values(|k: Seq<u8>| contributed(m.sessions[k]))
}

/// What each session contributes, ascending by name.
#[must_use]
pub fn contributions(core: &Core) -> (list: Vec<Contribution>)
    requires
        core.wf(),
    ensures
        contributes(core@, core.sessions.order(), list@),
{
    let ids = core.sessions.ids();
    let ghost f = |k: Seq<u8>| contributed(core@.sessions[k]);
    let mut list: Vec<Contribution> = Vec::new();
    let mut i: usize = 0;
    while i < ids.len()
        invariant
            i <= ids@.len(),
            core.wf(),
            lists_names(core@.sessions, ids@),
            list@.len() == i,
            forall|j: int|
                0 <= j < i ==> (#[trigger] list@[j]) == contributed(core@.sessions[ids@[j].bytes@]),
        decreases ids@.len() - i,
    {
        let id = ids[i];
        assert(core@.sessions.contains_key(id.bytes@));
        if let Some(entry) = core.sessions.get(id) {
            list.push(
                Contribution {
                    state: entry.machine.state,
                    reason: entry.machine.reason,
                    in_protected_scope: true,
                    has_usable_path: entry.machine.has_path,
                },
            );
        }
        i += 1;
    }
    proof {
        let order = core.sessions.order();
        assert(names_of(ids@) == order);
        assert forall|j: int| 0 <= j < list@.len() implies list@[j] == order.map_values(f)[j] by {
            assert(names_of(ids@)[j] == ids@[j].bytes@);
        }
        assert(list@ =~= order.map_values(f));
    }
    list
}

/// How one session is carried.
#[derive(Debug, Clone, Copy, PartialEq, Eq)]
pub struct ConnectionHealth {
    /// The session.
    pub session_id: SessionId,
    /// What carries its traffic, if anything does.
    pub path_class: Option<PathClass>,
}

/// How all sessions together stand, and why.
#[derive(Debug, Clone, Copy, PartialEq, Eq)]
pub struct Aggregate {
    /// Where they stand.
    pub state: ConnectionState,
    /// Why, where some session says.
    pub reason: Option<ReasonCode>,
}

/// How an instance stands.
#[derive(Debug)]
pub struct HealthSample {
    /// Where all sessions together stand.
    pub connection_state: ConnectionState,
    /// How each is carried, ascending by name.
    pub per_session: Vec<ConnectionHealth>,
    /// Why, as the texts of registered codes.
    pub reason_codes: Vec<&'static str>,
    /// The core version.
    pub agent_version: &'static str,
    /// The highest epoch it speaks.
    pub proto_version: u32,
}

/// The reason that a state carries when no session supplied one. A state that does not
/// require one has none: an invented reason would be a lie of its own.
pub open spec fn default_reason(state: ConnectionState) -> Option<ReasonCode> {
    match state {
        ConnectionState::Blocked => Some(ReasonCode::PolicyKillswitchEngaged),
        ConnectionState::Failed => Some(ReasonCode::NetNoRoute),
        ConnectionState::Degraded => Some(ReasonCode::NetQosDegradedTimeout),
        ConnectionState::Reconnecting => Some(ReasonCode::NetNoUsableCandidates),
        _ => None,
    }
}

/// The reason that a state carries when no session supplied one.
#[must_use]
pub fn default_reason_for(state: ConnectionState) -> (code: Option<ReasonCode>)
    ensures
        code == default_reason(state),
{
    match state {
        ConnectionState::Blocked => Some(ReasonCode::PolicyKillswitchEngaged),
        ConnectionState::Failed => Some(ReasonCode::NetNoRoute),
        ConnectionState::Degraded => Some(ReasonCode::NetQosDegradedTimeout),
        ConnectionState::Reconnecting => Some(ReasonCode::NetNoUsableCandidates),
        _ => None,
    }
}

/// The reason that is reported: a session's, or else the state's own.
pub open spec fn reported_reason(aggregate: Aggregate) -> Option<ReasonCode> {
    if aggregate.reason is Some {
        aggregate.reason
    } else {
        default_reason(aggregate.state)
    }
}

/// A sample of how the instance stands, its sessions in the order of `names`.
pub open spec fn samples(
    m: CoreModel,
    names: Seq<Seq<u8>>,
    aggregate: Aggregate,
    s: HealthSample,
) -> bool {
    &&& s.connection_state == aggregate.state
    &&& names_of(s.per_session@.map_values(|h: ConnectionHealth| h.session_id)) == names
    &&& forall|i: int|
        0 <= i < s.per_session@.len() ==> (#[trigger] s.per_session@[i]).path_class
            == m.sessions[s.per_session@[i].session_id.bytes@].machine.carrier
    &&& match reported_reason(aggregate) {
        Some(code) => s.reason_codes@.len() == 1 && s.reason_codes@[0]@ == code.name(),
        None => s.reason_codes@.len() == 0,
    }
}

/// How the instance stands, from how its sessions together stand.
#[must_use]
pub fn status_sample(core: &Core, aggregate: Aggregate) -> (s: HealthSample)
    requires
        core.wf(),
    ensures
        samples(core@, core.sessions.order(), aggregate, s),
        s.agent_version == core.identity.core_version,
        s.proto_version == core.identity.protocol_epoch_max,
{
    let ids = core.sessions.ids();
    let mut per_session: Vec<ConnectionHealth> = Vec::new();
    let mut i: usize = 0;
    while i < ids.len()
        invariant
            i <= ids@.len(),
            core.wf(),
            lists_names(core@.sessions, ids@),
            per_session@.len() == i,
            forall|j: int|
                0 <= j < i ==> (#[trigger] per_session@[j]).session_id == ids@[j]
                    && per_session@[j].path_class
                    == core@.sessions[ids@[j].bytes@].machine.carrier,
        decreases ids@.len() - i,
    {
        let id = ids[i];
        assert(core@.sessions.contains_key(id.bytes@));
        if let Some(entry) = core.sessions.get(id) {
            per_session.push(
                ConnectionHealth { session_id: id, path_class: entry.machine.carrier },
            );
        }
        i += 1;
    }
    assert(per_session@.map_values(|h: ConnectionHealth| h.session_id) =~= ids@);
    let reason = match aggregate.reason {
        Some(code) => Some(code),
        None => default_reason_for(aggregate.state),
    };
    let mut reason_codes: Vec<&'static str> = Vec::new();
    if let Some(code) = reason {
        reason_codes.push(code.as_str());
    }
    HealthSample {
        connection_state: aggregate.state,
        per_session,
        reason_codes,
        agent_version: core.identity.core_version,
        proto_version: core.identity.protocol_epoch_max,
    }
}

/// A sample that reports a state which something must explain is never without a
/// reason.
pub proof fn a_bad_state_is_explained(aggregate: Aggregate)
    requires
        aggregate.state == ConnectionState::Degraded || aggregate.state == ConnectionState::Failed
            || aggregate.state == ConnectionState::Blocked || aggregate.state
            == ConnectionState::Reconnecting,
    ensures
        reported_reason(aggregate) is Some,
{
}

} // verus!
