//! How an instance starts: what it is, and that it protects before it carries.

use vstd::prelude::*;

use crate::datapath::outcome::Step;
use crate::enforce::{denies_dns, DnsPolicy, Enforcement, ProtectedPreconditions, Ruleset};
use crate::execute::carriage::octets_moved;
use crate::instance::{created, Core, CoreParts};
use crate::lite::Profile;
use crate::reason::{Diagnostic, Evidence, ReasonCode};
use crate::session_table::{some_connected, SessionModel};

verus! {

/// An instance is created exactly where shell and core were built against one major of the
/// ABI; otherwise the refusal names both. Whatever else differs refuses nothing.
pub proof fn an_instance_is_created_on_one_abi(parts: CoreParts, r: Result<Core, Diagnostic>)
    requires
        created(parts, r),
    ensures
        r is Ok <==> parts.abi_major_expected == parts.abi_major,
        r matches Err(d) ==> d.code == ReasonCode::InternalAbiVersionMismatch && d.evidence == (
        Evidence::Abi {
            shell_abi_major: parts.abi_major_expected,
            core_abi_min: parts.abi_major,
            core_abi_max: parts.abi_major,
        }),
{
}

/// A fresh instance carries nothing and lets nothing out: the deny is wanted, there is no
/// interface, and nothing was ever applied. It knows no session, no peer and no store, holds
/// nothing queued, and its first event is numbered 1.
pub proof fn a_fresh_instance_is_at_rest(
    parts: CoreParts,
    r: Result<Core, Diagnostic>,
    name: Seq<u8>,
    twinnet: Seq<char>,
)
    requires
        created(parts, r),
        parts.abi_major_expected == parts.abi_major,
    ensures
        ({
            let m = r->Ok_0@;
            &&& m.enforcement.desired == Ruleset::Blocked && m.enforcement.handle is None
                && m.enforcement.applied is None && m.enforcement.deny_generation() == 0
            &&& !m.sessions.contains_key(name) && !m.journal.contains_key(name)
            &&& !m.planes.peers.contains_key((twinnet, name)) && !m.planes.cursor.contains_key(
                twinnet,
            ) && !m.planes.trust_epoch.contains_key(twinnet) && !m.planes.causality.contains_key(
                twinnet,
            )
            &&& m.planes.pending.len() == 0 && m.planes.last_refusal is None
            &&& m.bridge is None && !m.vault_open && m.control is None
            &&& m.ledger.len() == 0 && m.stream.queue.len() == 0 && m.stream.next_seq == 1
            &&& !m.stream.closed && m.stream.pending_gap is None
            &&& !m.poisoned && m.generation == 0 && m.instance_id == parts.instance_id
            &&& m.profile == parts.profile
            &&& m.stream.capacity >= 8 && m.stream.capacity >= parts.event_capacity
            &&& m.stream.capacity == 8 || m.stream.capacity == parts.event_capacity
        }),
{
}

/// An instance tells of itself what it was built from and what it was started with; the
/// epochs that it speaks are a range that holds one at least.
pub proof fn an_instance_tells_what_it_is(parts: CoreParts, r: Result<Core, Diagnostic>)
    requires
        created(parts, r),
        parts.abi_major_expected == parts.abi_major,
    ensures
        ({
            let id = r->Ok_0@.identity;
            &&& id.abi_major == parts.abi_major && id.abi_minor == parts.abi_minor
            &&& 1 <= id.protocol_epoch_min <= id.protocol_epoch_max
            &&& id.schema_digest == parts.schema_digest && id.crypto_provider
                == parts.crypto_provider
            &&& id.hardware_backed == parts.hardware_backed && id.sek_custody == parts.sek_custody
            &&& id.adapter_binding == parts.adapter_binding
            &&& id.target_triple == parts.stamp.target_triple && id.source_commit
                == parts.stamp.source_commit && id.reason_registry_version
                == parts.stamp.reason_registry_version
            &&& parts.profile == Profile::Full ==> id.profile == crate::build_identity::PROFILE
            &&& parts.profile == Profile::CoreLite ==> id.profile
                == crate::build_identity::PROFILE_LITE
        }),
{
}

/// The deny is left only where a path was validated and the rules stand in both families:
/// take any one of them away and it stays. Wanting it back needs nothing, and asks for it
/// under the generation that is applied.
pub proof fn the_deny_is_left_only_where_all_holds(e: Enforcement, pre: ProtectedPreconditions)
    ensures
        Enforcement::leaving(pre) == Ruleset::Protected <==> pre.path_validated
            && pre.ruleset_present_v4 && pre.ruleset_present_v6,
        Enforcement::leaving(pre) != Ruleset::Protected ==> Enforcement::leaving(pre)
            == Ruleset::Blocked,
        e.blocked().desired == Ruleset::Blocked,
        e.blocked().handle == e.handle && e.blocked().applied == e.applied
            && e.blocked().next_generation == e.next_generation,
        e.applied matches Some(generation) ==> e.deny_generation() == generation,
        e.applied is None ==> e.deny_generation() == 0,
{
}

/// Where no resolver policy was signed nothing is resolved: no server and no domain in either
/// family, each declared, and nothing else is asked instead.
pub proof fn without_a_policy_nothing_is_resolved(p: DnsPolicy)
    requires
        denies_dns(p),
    ensures
        p.servers_v4@.len() + p.servers_v6@.len() == 0,
        p.split_domains@.len() + p.search_domains@.len() == 0,
        p.block_fallback_v4 == Some(true) && p.block_fallback_v6 == Some(true),
        p.servers_declared_v4 == Some(true) && p.servers_declared_v6 == Some(true),
        p.mode == 3 && p.not_after_ms == 0 && p.version == 0,
{
}

/// One session that carries traffic on a validated path is enough for the instance to have
/// one, a degraded one too; sessions that only try do not make one.
pub proof fn one_connected_session_is_enough(sessions: Map<Seq<u8>, SessionModel>, name: Seq<u8>)
    requires
        sessions.contains_key(name),
    ensures
        sessions[name].machine.state is Steady || sessions[name].machine.state is Degraded
            ==> some_connected(sessions),
        some_connected(sessions.remove(name)) ==> some_connected(sessions),
        some_connected(sessions) && !some_connected(sessions.remove(name)) ==> (
        sessions[name].machine.state is Steady || sessions[name].machine.state is Degraded),
        !some_connected(Map::<Seq<u8>, SessionModel>::empty()),
{
    let rest = sessions.remove(name);
    if some_connected(rest) {
        let k = choose|k: Seq<u8>| #[trigger]
            rest.contains_key(k) && (rest[k].machine.state is Steady
                || rest[k].machine.state is Degraded);
        assert(sessions.contains_key(k));
    }
    if some_connected(sessions) && !some_connected(rest) {
        let k = choose|k: Seq<u8>| #[trigger]
            sessions.contains_key(k) && (sessions[k].machine.state is Steady
                || sessions[k].machine.state is Degraded);
        if k != name {
            assert(rest.contains_key(k));
        }
    }
}

/// Only a packet that crossed moves octets, all of its own.
pub proof fn only_what_crossed_moved(step: Step)
    ensures
        step matches Step::Moved(bytes) ==> octets_moved(step) == bytes,
        step !is Moved ==> octets_moved(step) == 0,
{
}

} // verus!
