//! Queue placement after a delivery pass, and deferred-retry readiness.

use vsmtp_delivery::context::{MailContext, MessageBody};
use vsmtp_delivery::deferred::{
    deferred_check, enforce_retry_cap, move_to_queue, retry_ready, sender_outcome,
    DeferredDecision, SenderOutcome,
};
use vsmtp_delivery::delivery::filter_dispatchable;
use vsmtp_delivery::queue::{MessageQueues, QueueID};
use vsmtp_delivery::transfer::{
    Address, EmailTransferStatus, ErrorRecord, Rcpt, Transfer, TransferError,
};

fn rcpt(local: &str, domain: &str) -> Rcpt {
    Rcpt::new(Address::new(local.to_string(), domain.to_string()))
}

fn held_back(local: &str, timestamps: &[i64]) -> Rcpt {
    let mut r = rcpt(local, "localhost");
    for t in timestamps {
        r.email_status.held_back(
            TransferError::Smtp { error: "connection refused".to_string() },
            *t,
        );
    }
    r
}

fn ctx(uuid: u128, rcpts: Vec<Rcpt>) -> MailContext {
    MailContext {
        server_name: "testserver.com".to_string(),
        client_helo: "localhost".to_string(),
        mail_from: Some(Address::new("test".to_string(), "localhost".to_string())),
        message_id: "test_message_id".to_string(),
        message_uuid: uuid,
        timestamp: 0,
        forward_paths: rcpts,
    }
}

fn body() -> MessageBody {
    MessageBody::new("email content".to_string())
}

#[test]
fn outcome_all_sent_is_removal() {
    let mut a = rcpt("a", "x.example");
    a.email_status = EmailTransferStatus::Sent;
    let mut b = rcpt("b", "x.example");
    b.email_status = EmailTransferStatus::Sent;
    assert_eq!(sender_outcome(&vec![a, b]), SenderOutcome::RemoveFromDisk);
}

#[test]
fn outcome_held_back_is_deferred() {
    let mut a = rcpt("a", "x.example");
    a.email_status = EmailTransferStatus::Sent;
    let b = held_back("b", &[100]);
    assert_eq!(sender_outcome(&vec![a, b]), SenderOutcome::MoveToDeferred);
}

#[test]
fn outcome_failure_is_dead_despite_success() {
    let mut a = rcpt("a", "x.example");
    a.email_status = EmailTransferStatus::Sent;
    let mut b = rcpt("b", "x.example");
    b.email_status = EmailTransferStatus::Failed {
        error: TransferError::HasNullMX { domain: "x.example".to_string() },
    };
    let held = held_back("c", &[100]);
    assert_eq!(sender_outcome(&vec![a, held, b]), SenderOutcome::MoveToDead);
}

#[test]
fn outcome_no_transport_is_dead() {
    let mut a = rcpt("a", "x.example");
    a.transfer_method = Transfer::NoTransport;
    assert_eq!(sender_outcome(&vec![a]), SenderOutcome::MoveToDead);
}

#[test]
fn readiness_boundary_with_two_held_back() {
    // Two held-back recipients, oldest last error at 1000: due at 1000 + 600.
    let a = held_back("a", &[500, 1000]);
    let b = held_back("b", &[500, 1200]);
    let rcpts = vec![a, b];
    assert!(!retry_ready(&rcpts, 1599));
    assert!(retry_ready(&rcpts, 1600));
    assert!(retry_ready(&rcpts, 1601));
}

#[test]
fn readiness_without_any_error_is_immediate() {
    let rcpts = vec![rcpt("a", "localhost")];
    assert!(retry_ready(&rcpts, 0));
}

#[test]
fn move_to_deferred() {
    // A transiently failing recipient keeps the message in the deferred
    // queue, not in the delivery queue and not in the dead queue.
    let mut queues = MessageQueues::new();
    let uuid: u128 = 7;
    queues.write_both(QueueID::Deferred, ctx(uuid, vec![rcpt("test", "localhost")]), body());

    assert_eq!(deferred_check(&queues, uuid, 0), DeferredDecision::Retry);

    let mut retried = rcpt("test", "localhost");
    retried.email_status.held_back(
        TransferError::Smtp { error: "connection refused".to_string() },
        0,
    );
    let outcome = move_to_queue(&mut queues, QueueID::Deferred, uuid, vec![retried]);
    assert_eq!(outcome, SenderOutcome::MoveToDeferred);

    assert!(queues.get_ctx(QueueID::Deliver, uuid).is_none());
    assert!(queues.get_ctx(QueueID::Dead, uuid).is_none());
    assert!(queues.get_ctx(QueueID::Deferred, uuid).is_some());
}

#[test]
fn move_to_dead() {
    // A permanently failing recipient moves the message from the deferred
    // queue to the dead queue.
    let mut queues = MessageQueues::new();
    let uuid: u128 = 9;
    queues.write_both(QueueID::Deferred, ctx(uuid, vec![rcpt("test", "localhost")]), body());

    let mut failed = rcpt("test", "localhost");
    failed.email_status = EmailTransferStatus::Failed {
        error: TransferError::HasNullMX { domain: "localhost".to_string() },
    };
    let outcome = move_to_queue(&mut queues, QueueID::Deferred, uuid, vec![failed]);
    assert_eq!(outcome, SenderOutcome::MoveToDead);

    assert!(queues.get_ctx(QueueID::Deferred, uuid).is_none());
    assert!(queues.get_ctx(QueueID::Dead, uuid).is_some());
}

#[test]
fn fully_sent_message_is_not_retried() {
    // A deferred message whose recipients were all sent: the sweep removes
    // it without dispatching anything, and a second sweep finds nothing.
    let mut queues = MessageQueues::new();
    let uuid: u128 = 11;
    let mut sent = rcpt("test", "localhost");
    sent.email_status = EmailTransferStatus::Sent;
    queues.write_both(QueueID::Deferred, ctx(uuid, vec![sent]), body());

    assert_eq!(deferred_check(&queues, uuid, 0), DeferredDecision::Retry);
    let stored = queues.get_ctx(QueueID::Deferred, uuid).unwrap().forward_paths.clone();
    let (dispatch, kept) = filter_dispatchable(stored);
    assert_eq!(dispatch.len(), 0);

    let outcome = move_to_queue(&mut queues, QueueID::Deferred, uuid, kept);
    assert_eq!(outcome, SenderOutcome::RemoveFromDisk);
    assert!(queues.get_ctx(QueueID::Deferred, uuid).is_none());
    assert!(queues.get_ctx(QueueID::Dead, uuid).is_none());

    // Second invocation: the message is gone, nothing is dispatched.
    assert_eq!(deferred_check(&queues, uuid, 0), DeferredDecision::Missing);
}

#[test]
fn not_ready_message_is_skipped() {
    let mut queues = MessageQueues::new();
    let uuid: u128 = 13;
    let r = held_back("test", &[1000, 2000]);
    queues.write_both(QueueID::Deferred, ctx(uuid, vec![r]), body());
    // Two errors recorded on one recipient: held_back_count is 1, oldest
    // last error is 2000, so the message is due at 2300.
    assert_eq!(deferred_check(&queues, uuid, 2299), DeferredDecision::NotReady);
    assert_eq!(deferred_check(&queues, uuid, 2300), DeferredDecision::Retry);
    // Skipping leaves the queue untouched.
    assert!(queues.get_ctx(QueueID::Deferred, uuid).is_some());
}

#[test]
fn queue_store_moves_are_exclusive() {
    let mut queues = MessageQueues::new();
    queues.write_both(QueueID::Working, ctx(1, vec![]), body());
    queues.write_both(QueueID::Deferred, ctx(2, vec![]), body());

    assert!(queues.get_ctx(QueueID::Working, 1).is_some());
    queues.move_to(QueueID::Working, QueueID::Deliver, ctx(1, vec![]));
    assert!(queues.get_ctx(QueueID::Working, 1).is_none());
    assert!(queues.get_ctx(QueueID::Deliver, 1).is_some());
    // The other message is untouched.
    assert!(queues.get_ctx(QueueID::Deferred, 2).is_some());

    let deferred = queues.list(QueueID::Deferred);
    assert_eq!(deferred, vec![2]);

    queues.remove_both(QueueID::Deliver, 1);
    assert!(queues.get_ctx(QueueID::Deliver, 1).is_none());
    assert!(queues.get_msg(1).is_none());
    assert!(queues.get_msg(2).is_some());

    // Rewriting a context in place keeps the placement and the body.
    queues.write_ctx(QueueID::Deferred, ctx(2, vec![rcpt("kept", "localhost")]));
    let stored = queues.get_ctx(QueueID::Deferred, 2).unwrap();
    assert_eq!(stored.forward_paths.len(), 1);
    assert_eq!(stored.forward_paths[0].address.local_part, "kept");
    assert_eq!(queues.get_msg(2).unwrap().body, "email content");
}

#[test]
fn retry_cap_forces_a_permanent_failure() {
    // Three recorded failures with a cap of three: the recipient is forced
    // from held back to failed, carrying its last error, and the message
    // is dead-lettered instead of deferred again.
    let capped = held_back("a", &[10, 20, 30]);
    let fresh = held_back("b", &[30]);
    let updated = enforce_retry_cap(vec![capped, fresh], 3);

    match &updated[0].email_status {
        EmailTransferStatus::Failed { error } => {
            assert_eq!(error, &TransferError::Smtp { error: "connection refused".to_string() });
        }
        other => panic!("expected a forced failure, got {:?}", other),
    }
    // Below the cap nothing changes.
    assert!(matches!(updated[1].email_status, EmailTransferStatus::HeldBack { .. }));

    assert_eq!(sender_outcome(&updated), SenderOutcome::MoveToDead);
}

#[test]
fn held_back_history_accumulates() {
    let r = held_back("a", &[10, 20, 30]);
    match &r.email_status {
        EmailTransferStatus::HeldBack { errors } => {
            let ts: Vec<i64> = errors.iter().map(|e: &ErrorRecord| e.timestamp).collect();
            assert_eq!(ts, vec![10, 20, 30]);
        }
        _ => panic!(),
    }
}
