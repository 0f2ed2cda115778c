//! Tests of the connection actor's queue discipline.

use matroskin::actor::message::ActorMessage;
use matroskin::actor::{salt_from_handshake, ActorWorker, QUEUE_CAPACITY};
use matroskin::error::Error;

fn item(index: u64) -> ActorMessage {
    ActorMessage {
        message: format!("item {}", index).into_bytes(),
        ticket: index,
    }
}

#[test]
fn five_items_are_served_in_submission_order() {
    // A mock device that echoes each payload: replies come back in strict
    // submission order, with never more than one item mid-flight.
    let mut worker = ActorWorker::new();
    for i in 0..5u64 {
        assert!(worker.submit(item(i)));
    }
    let mut replies: Vec<(u64, Vec<u8>)> = Vec::new();
    loop {
        assert!(!worker.busy());
        let m = match worker.begin_next() {
            Some(m) => m,
            None => break,
        };
        assert!(worker.busy());
        let echoed = m.message.clone();
        let ticket = worker.finish();
        assert_eq!(ticket, m.ticket);
        replies.push((ticket, echoed));
    }
    assert_eq!(replies.len(), 5);
    for (i, (ticket, payload)) in replies.iter().enumerate() {
        assert_eq!(*ticket, i as u64);
        assert_eq!(payload, &format!("item {}", i).into_bytes());
    }
}

#[test]
fn queue_is_bounded() {
    let mut worker = ActorWorker::new();
    for i in 0..QUEUE_CAPACITY as u64 {
        assert!(worker.submit(item(i)));
    }
    assert!(!worker.submit(item(99)));
    assert_eq!(worker.pending_len(), QUEUE_CAPACITY);
    let first = worker.begin_next().unwrap();
    assert_eq!(first.ticket, 0);
    worker.finish();
    assert!(worker.submit(item(100)));
}

#[test]
fn idle_worker_with_empty_queue_reports_nothing() {
    let mut worker = ActorWorker::new();
    assert!(worker.begin_next().is_none());
    assert!(!worker.busy());
    assert_eq!(worker.pending_len(), 0);
}

#[test]
fn queue_survives_a_failed_round_trip() {
    // A failed round trip is delivered as the item's result; the waiting
    // items stay queued and are served next.
    let mut worker = ActorWorker::new();
    assert!(worker.submit(item(0)));
    assert!(worker.submit(item(1)));
    let first = worker.begin_next().unwrap();
    assert_eq!(first.ticket, 0);
    let ticket = worker.finish();
    assert_eq!(ticket, 0);
    assert_eq!(worker.pending_len(), 1);
    let second = worker.begin_next().unwrap();
    assert_eq!(second.ticket, 1);
}

#[test]
fn handshake_without_salt_fails_session_creation() {
    assert_eq!(
        salt_from_handshake(Some("s4lt".to_string())).unwrap(),
        "s4lt"
    );
    assert!(matches!(
        salt_from_handshake(None),
        Err(Error::SaltNotFound)
    ));
}
