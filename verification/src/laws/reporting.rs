//! What is reported of an instance and of its sessions.

use vstd::prelude::*;

use crate::events::SessionEvent;
use crate::execute::report::{contributes, reported_reason, samples, tells_session, Aggregate,
    ConnectionHealth, Contribution, HealthSample};
use crate::instance::CoreModel;
use crate::reason::{Component, Diagnostic, ReasonCode};
use crate::session::ConnectionState;
use crate::session_table::names_of;
use crate::types::SessionId;

verus! {

/// A session that is known is told where it stands; it has a single family exactly where all
/// its candidates are of one, and there is one. One that is not known is refused as closed,
/// and nothing is made up of it.
pub proof fn a_session_is_told_as_it_stands(
    m: CoreModel,
    session_id: SessionId,
    r: Result<SessionEvent, Diagnostic>,
    i: int,
    j: int,
)
    requires
        tells_session(m, session_id, r),
    ensures
        !m.sessions.contains_key(session_id.bytes@) ==> (r matches Err(d) && d.code
            == ReasonCode::NetSessionClosedByUser && d.component
            == Component::ManagementInterface),
        m.sessions.contains_key(session_id.bytes@) ==> {
            let rows = m.sessions[session_id.bytes@].rows;
            &&& r matches Ok(SessionEvent::CandidateUpdated { session_id: of, state, .. }) && of
                == session_id && state == m.sessions[session_id.bytes@].machine.state
            &&& rows.len() == 0 ==> !r->Ok_0->CandidateUpdated_single_family
            &&& 0 <= i < rows.len() && 0 <= j < rows.len() && rows[i].candidate.endpoint.address is V4
                && rows[j].candidate.endpoint.address is V6
                ==> !r->Ok_0->CandidateUpdated_single_family
            &&& rows.len() > 0 && (forall|k: int|
                0 <= k < rows.len() ==> (#[trigger] rows[k]).candidate.endpoint.address is V4)
                ==> r->Ok_0->CandidateUpdated_single_family
            &&& rows.len() > 0 && (forall|k: int|
                0 <= k < rows.len() ==> (#[trigger] rows[k]).candidate.endpoint.address is V6)
                ==> r->Ok_0->CandidateUpdated_single_family
        },
{
    if m.sessions.contains_key(session_id.bytes@) {
        let rows = m.sessions[session_id.bytes@].rows;
        if rows.len() > 0 {
            let first = rows[0].candidate.endpoint.address;
            assert(first is V4 || first is V6);
        }
    }
}

/// Every session contributes, once and in the order of the names: where it stands, why, and
/// whether it has a path, as its machine reports. What any of them carries is protected.
pub proof fn every_session_contributes(
    m: CoreModel,
    names: Seq<Seq<u8>>,
    list: Seq<Contribution>,
    i: int,
)
    requires
        contributes(m, names, list),
        0 <= i < names.len(),
    ensures
        list.len() == names.len(),
        list[i].state == m.sessions[names[i]].machine.state,
        list[i].reason == m.sessions[names[i]].machine.reason,
        list[i].has_usable_path == m.sessions[names[i]].machine.has_path,
        list[i].in_protected_scope,
{
}

/// A sample names every session, once and in the order of the names, with what carries it,
/// and says where all of them together stand.
pub proof fn a_sample_names_every_session(
    m: CoreModel,
    names: Seq<Seq<u8>>,
    aggregate: Aggregate,
    s: HealthSample,
    i: int,
)
    requires
        samples(m, names, aggregate, s),
        0 <= i < names.len(),
    ensures
        s.connection_state == aggregate.state,
        s.per_session@.len() == names.len(),
        s.per_session@[i].session_id.bytes@ == names[i],
        s.per_session@[i].path_class == m.sessions[names[i]].machine.carrier,
{
    let ids = s.per_session@.map_values(|h: ConnectionHealth| h.session_id);
    assert(names_of(ids)[i] == names[i]);
    assert(names_of(ids).len() == names.len());
    assert(ids[i] == s.per_session@[i].session_id);
}

/// A reason that a session gave is the one that is reported, whatever the state. Where none
/// gave one, a state that something is wrong with has a reason of its own, no two the same;
/// and of a state that nothing is wrong with no reason is made up.
pub proof fn a_reason_is_given_and_not_made_up(
    m: CoreModel,
    names: Seq<Seq<u8>>,
    aggregate: Aggregate,
    s: HealthSample,
    other: Aggregate,
)
    requires
        samples(m, names, aggregate, s),
    ensures
        aggregate.reason matches Some(code) ==> s.reason_codes@.len() == 1 && s.reason_codes@[0]@
            == code.name(),
        aggregate.reason is None ==> (s.reason_codes@.len() == 1 <==> aggregate.state
            == ConnectionState::Blocked || aggregate.state == ConnectionState::Failed
            || aggregate.state == ConnectionState::Degraded || aggregate.state
            == ConnectionState::Reconnecting),
        s.reason_codes@.len() <= 1,
        aggregate.reason is None && other.reason is None && reported_reason(aggregate) is Some
            && reported_reason(aggregate) == reported_reason(other) ==> aggregate.state
            == other.state,
        aggregate.reason is None && aggregate.state == ConnectionState::Blocked ==> reported_reason(
            aggregate,
        ) == Some(ReasonCode::PolicyKillswitchEngaged),
        aggregate.reason is None && aggregate.state == ConnectionState::Failed ==> reported_reason(
            aggregate,
        ) == Some(ReasonCode::NetNoRoute),
        aggregate.reason is None && aggregate.state == ConnectionState::Degraded
            ==> reported_reason(aggregate) == Some(ReasonCode::NetQosDegradedTimeout),
        aggregate.reason is None && aggregate.state == ConnectionState::Reconnecting
            ==> reported_reason(aggregate) == Some(ReasonCode::NetNoUsableCandidates),
{
}

} // verus!
