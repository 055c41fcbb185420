use twinvpn_core::journal::{decode, encode, key_for, CoreSessionJournal, JournalError};
use twinvpn_core::planes::{new_shared, PendingWrite};
use twinvpn_core::reason::ReasonCode;
use twinvpn_core::session::{DurableSession, PathClass, SessionState};
use twinvpn_core::types::{DeviceId, SessionId};

fn record(state: SessionState) -> DurableSession {
    let needs_reason = matches!(
        state,
        SessionState::Degraded { .. }
            | SessionState::Reconnecting { .. }
            | SessionState::Blocked
            | SessionState::Failed
    );
    DurableSession {
        session_id: SessionId::from_slice(&[3; 16]).expect("16"),
        peer: DeviceId::from_slice(&[4; 32]).expect("32"),
        last_state: state,
        last_reason: if needs_reason {
            Some(ReasonCode::PolicyKillswitchEngaged)
        } else {
            None
        },
    }
}

#[test]
fn every_state_round_trips_through_the_vault_encoding() {
    let states = [
        SessionState::Disconnected,
        SessionState::Discovering,
        SessionState::Negotiating,
        SessionState::Connecting,
        SessionState::Steady(PathClass::LocalDirect),
        SessionState::Steady(PathClass::WanDirect),
        SessionState::Steady(PathClass::Relayed),
        SessionState::Migrating {
            from: PathClass::Relayed,
            to: PathClass::WanDirect,
        },
        SessionState::Degraded {
            carrier: PathClass::Relayed,
        },
        SessionState::Reconnecting { parked: true },
        SessionState::Reconnecting { parked: false },
        SessionState::Blocked,
        SessionState::Failed,
    ];
    for state in states {
        let original = record(state);
        let back = decode(&encode(&original), &Vec::new()).expect("decodes");
        assert_eq!(back.last_state, state, "{state:?} did not round-trip");
        assert_eq!(back.session_id, original.session_id);
        assert_eq!(back.peer, original.peer);
        assert_eq!(back.last_reason, original.last_reason);
    }
}

#[test]
fn a_truncated_record_is_corrupt_not_empty() {
    assert!(matches!(
        decode(&[], &Vec::new()),
        Err(JournalError::Corrupt)
    ));
    assert!(matches!(
        decode(&[0; 10], &Vec::new()),
        Err(JournalError::Corrupt)
    ));
}

#[test]
fn persist_makes_the_record_loadable_and_queues_a_durable_write() {
    let mut shared = new_shared();
    let mut journal = CoreSessionJournal::new(Vec::new());
    let r = record(SessionState::Blocked);
    journal.persist(&mut shared, &r);
    assert_eq!(journal.load_all(), vec![r]);
    assert_eq!(shared.pending_snapshot().len(), 1);
}

#[test]
fn forget_removes_the_record_and_queues_the_delete() {
    let mut shared = new_shared();
    let mut journal = CoreSessionJournal::new(Vec::new());
    let r = record(SessionState::Failed);
    journal.persist(&mut shared, &r);
    journal.forget(&mut shared, r.session_id);
    assert!(journal.load_all().is_empty());
    let pending = shared.pending_snapshot();
    assert_eq!(pending.len(), 2);
    assert!(matches!(
        pending[1],
        PendingWrite::Session { value: None, .. }
    ));
}

#[test]
fn a_restored_journal_resumes_into_reconnecting_except_where_the_user_closed_it() {
    let restored = vec![
        record(SessionState::Steady(PathClass::WanDirect)),
        DurableSession {
            session_id: SessionId::from_slice(&[9; 16]).expect("16"),
            peer: DeviceId::from_slice(&[9; 32]).expect("32"),
            last_state: SessionState::Disconnected,
            last_reason: None,
        },
    ];
    let journal = CoreSessionJournal::new(restored);
    let loaded = journal.load_all();
    assert_eq!(loaded.len(), 2);
    let resumed: Vec<SessionState> = loaded.iter().map(DurableSession::resume_state).collect();
    assert!(resumed.contains(&SessionState::Reconnecting { parked: false }));
    assert!(resumed.contains(&SessionState::Disconnected));
}

#[test]
fn a_reason_is_kept_only_where_it_is_registered() {
    let mut r = record(SessionState::Failed);
    r.last_reason = Some(ReasonCode::Registered("NAT.SYMMETRIC"));
    let octets = encode(&r);
    let known = decode(&octets, &vec!["NAT.SYMMETRIC"]).expect("decodes");
    assert_eq!(
        known.last_reason,
        Some(ReasonCode::Registered("NAT.SYMMETRIC"))
    );
    let unknown = decode(&octets, &Vec::new()).expect("decodes");
    assert_eq!(unknown.last_reason, None);
}

#[test]
fn a_reason_that_is_no_text_makes_the_record_corrupt() {
    let mut r = record(SessionState::Failed);
    r.last_reason = Some(ReasonCode::Registered("AB"));
    let mut octets = encode(&r);
    let n = octets.len();
    octets[n - 1] = 0xff;
    octets[n - 2] = 0xff;
    assert_eq!(decode(&octets, &vec!["AB"]), Err(JournalError::Corrupt));
    octets.truncate(n - 1);
    assert_eq!(decode(&octets, &vec!["AB"]), Err(JournalError::Corrupt));
}

#[test]
fn a_session_is_keyed_by_its_hexadecimal_name() {
    let id = SessionId::from_slice(&[0x0a; 16]).expect("16");
    assert_eq!(key_for(id), "0a0a0a0a0a0a0a0a0a0a0a0a0a0a0a0a");
    let journal = CoreSessionJournal::new(Vec::new());
    assert!(journal.is_empty());
    assert_eq!(journal.len(), 0);
}
