use component_actor::reliable_sender::{RetryPolicy, SendAttempt, SendDecision};
use tokio::sync::mpsc;
use tokio::sync::mpsc::error::TrySendError;

#[test]
fn the_standard_policy() {
    let policy = RetryPolicy::standard();
    assert_eq!(policy.max_attempts, 5);
    assert_eq!(policy.base_delay_ms, 100);
    assert_eq!(policy, RetryPolicy::new(5, 100));
}

#[test]
fn the_delay_doubles_with_every_failure() {
    let policy = RetryPolicy::standard();
    assert_eq!(policy.backoff_delay(0), 100);
    assert_eq!(policy.backoff_delay(1), 200);
    assert_eq!(policy.backoff_delay(2), 400);
    assert_eq!(policy.backoff_delay(3), 800);
    assert_eq!(policy.backoff_delay(4), 1600);
}

#[test]
fn the_delay_stops_at_the_largest_value() {
    assert_eq!(RetryPolicy::new(3, u64::MAX).backoff_delay(1), u64::MAX);
    assert_eq!(RetryPolicy::new(3, 1).backoff_delay(63), 1u64 << 63);
    assert_eq!(RetryPolicy::new(3, 1).backoff_delay(64), u64::MAX);
    assert_eq!(RetryPolicy::new(3, 3).backoff_delay(u32::MAX), u64::MAX);
    assert_eq!(RetryPolicy::new(3, 0).backoff_delay(u32::MAX), 0);
}

#[test]
fn an_accepted_message_is_delivered() {
    let policy = RetryPolicy::standard();
    assert_eq!(policy.decide(0, SendAttempt::Accepted), SendDecision::Delivered);
    assert_eq!(policy.decide(4, SendAttempt::Accepted), SendDecision::Delivered);
}

#[test]
fn a_closed_queue_drops_at_once() {
    let policy = RetryPolicy::standard();
    assert_eq!(policy.decide(0, SendAttempt::Closed), SendDecision::DropClosed);
}

#[test]
fn a_full_queue_is_retried_until_the_budget_is_spent() {
    let policy = RetryPolicy::standard();
    let mut decisions = Vec::new();
    let mut failed = 0u32;
    loop {
        let decision = policy.decide(failed, SendAttempt::Full);
        decisions.push(decision);
        if !matches!(decision, SendDecision::RetryAfter { .. }) {
            break;
        }
        failed += 1;
    }
    assert_eq!(
        decisions,
        vec![
            SendDecision::RetryAfter { delay_ms: 200 },
            SendDecision::RetryAfter { delay_ms: 400 },
            SendDecision::RetryAfter { delay_ms: 800 },
            SendDecision::RetryAfter { delay_ms: 1600 },
            SendDecision::DropFull { attempts: 5 },
        ]
    );
}

#[test]
fn a_budget_of_one_or_none_drops_on_the_first_full_queue() {
    assert_eq!(
        RetryPolicy::new(1, 100).decide(0, SendAttempt::Full),
        SendDecision::DropFull { attempts: 1 }
    );
    assert_eq!(
        RetryPolicy::new(0, 100).decide(0, SendAttempt::Full),
        SendDecision::DropFull { attempts: 0 }
    );
    assert_eq!(
        RetryPolicy::new(5, 100).decide(u32::MAX, SendAttempt::Full),
        SendDecision::DropFull { attempts: 5 }
    );
}

fn attempt(queue: &mpsc::Sender<u64>, message: u64) -> SendAttempt {
    match queue.try_send(message) {
        Ok(()) => SendAttempt::Accepted,
        Err(TrySendError::Full(_)) => SendAttempt::Full,
        Err(TrySendError::Closed(_)) => SendAttempt::Closed,
    }
}

#[test]
fn more_messages_than_the_queue_holds_are_retried_and_dropped_once() {
    let policy = RetryPolicy::new(3, 0);
    let (queue, mut inbox) = mpsc::channel::<u64>(2);
    let mut dropped = Vec::new();
    let mut retries = 0;
    for message in 0..3u64 {
        let mut failed = 0u32;
        loop {
            match policy.decide(failed, attempt(&queue, message)) {
                SendDecision::Delivered => break,
                SendDecision::RetryAfter { .. } => {
                    retries += 1;
                    failed += 1;
                }
                SendDecision::DropFull { attempts } => {
                    dropped.push((message, attempts));
                    break;
                }
                SendDecision::DropClosed => panic!("the queue is open"),
            }
        }
    }
    assert_eq!(retries, 2);
    assert_eq!(dropped, vec![(2, 3)]);
    assert_eq!(inbox.try_recv().ok(), Some(0));
    assert_eq!(inbox.try_recv().ok(), Some(1));
    assert!(inbox.try_recv().is_err());
}

#[test]
fn a_retry_succeeds_once_the_queue_has_room() {
    let policy = RetryPolicy::standard();
    let (queue, mut inbox) = mpsc::channel::<u64>(1);
    assert_eq!(policy.decide(0, attempt(&queue, 1)), SendDecision::Delivered);
    assert_eq!(policy.decide(0, attempt(&queue, 2)), SendDecision::RetryAfter { delay_ms: 200 });
    assert_eq!(inbox.try_recv().ok(), Some(1));
    assert_eq!(policy.decide(1, attempt(&queue, 2)), SendDecision::Delivered);
    assert_eq!(inbox.try_recv().ok(), Some(2));
    assert!(inbox.try_recv().is_err());
}

#[test]
fn a_closed_queue_is_reported_by_the_real_queue() {
    let policy = RetryPolicy::standard();
    let (queue, inbox) = mpsc::channel::<u64>(1);
    drop(inbox);
    assert_eq!(policy.decide(0, attempt(&queue, 1)), SendDecision::DropClosed);
}
