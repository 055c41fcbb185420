use twinvpn_core::events::{CoreEventKind, EventStream, Polled};
use twinvpn_core::reason::{Component, Diagnostic, ReasonCode};

fn diag() -> CoreEventKind {
    CoreEventKind::Diagnostic(Diagnostic::new(
        ReasonCode::InternalCorePanic,
        Component::Diagnostics,
    ))
}

#[test]
fn the_stream_is_totally_ordered_with_no_gaps_when_nothing_is_dropped() {
    let mut s = EventStream::new(64);
    for _ in 0..10 {
        s.publish(diag(), None);
    }
    let mut seqs = Vec::new();
    while let Some(e) = s.next_event() {
        seqs.push(e.seq);
    }
    assert_eq!(seqs, (1..=10).collect::<Vec<u64>>());
}

#[test]
fn an_overflow_emits_an_ordered_compacted_marker_before_any_further_event() {
    let mut s = EventStream::new(8);
    for _ in 0..12 {
        s.publish(diag(), None);
    }
    let first = s.next_event().expect("an event");
    match first.kind {
        CoreEventKind::Compacted { dropped, .. } => assert_eq!(dropped, 4),
        other => panic!("the marker must come first, got {other:?}"),
    }
}

#[test]
fn no_marker_appears_when_nothing_was_dropped() {
    let mut s = EventStream::new(64);
    s.publish(diag(), None);
    let e = s.next_event().expect("an event");
    assert!(!matches!(e.kind, CoreEventKind::Compacted { .. }));
}

#[test]
fn a_wake_cancels_a_wait_and_is_consumed_once() {
    let mut s = EventStream::new(8);
    s.wake();
    assert_eq!(s.poll(), Polled::Nothing);
    assert_eq!(s.poll(), Polled::Wait);
    s.publish(diag(), None);
    assert!(s.next_event().is_some());
}

#[test]
fn a_closed_stream_accepts_nothing_and_returns_nothing() {
    let mut s = EventStream::new(8);
    s.close();
    assert_eq!(s.publish(diag(), None), None);
    assert!(s.next_event().is_none());
}

#[test]
fn mi_18_attribution_survives_the_queue() {
    let mut s = EventStream::new(8);
    s.publish(diag(), Some("dana".to_owned()));
    let e = s.next_event().expect("event");
    assert_eq!(e.actor_principal.as_deref(), Some("dana"));
}

#[test]
fn what_is_read_strictly_increases_across_a_gap() {
    let mut s = EventStream::new(8);
    for _ in 0..3 {
        s.publish(diag(), None);
    }
    let mut seqs = vec![s.next_event().expect("an event").seq];
    for _ in 0..9 {
        s.publish(diag(), None);
    }
    while let Some(e) = s.next_event() {
        seqs.push(e.seq);
    }
    assert_eq!(seqs, vec![1, 4, 5, 6, 7, 8, 9, 10, 11, 12]);
    assert_eq!(s.cursor(), 13);
    assert!(s.is_empty());
}

#[test]
fn a_stream_is_never_narrower_than_eight() {
    let mut s = EventStream::new(0);
    for _ in 0..8 {
        s.publish(diag(), None);
    }
    assert_eq!(s.len(), 8);
    let e = s.next_event().expect("an event");
    assert_eq!(e.seq, 1);
}

#[test]
fn every_event_is_read_or_accounted_for() {
    let mut s = EventStream::new(8);
    let mut read = Vec::new();
    let mut announced = 0;
    let mut published = 0;
    for round in 0..5 {
        for _ in 0..(6 + round) {
            assert!(s.publish(diag(), None).is_some());
            published += 1;
        }
        for _ in 0..3 {
            if let Some(e) = s.next_event() {
                match e.kind {
                    CoreEventKind::Compacted { dropped, .. } => announced += dropped,
                    _ => read.push(e.seq),
                }
            }
        }
    }
    while let Some(e) = s.next_event() {
        match e.kind {
            CoreEventKind::Compacted { dropped, .. } => announced += dropped,
            _ => read.push(e.seq),
        }
    }
    assert!(announced > 0);
    assert_eq!(read.len() as u64 + announced, published);
    assert!(read.windows(2).all(|w| w[0] < w[1]));
}
