//! The decisions of the reliable sender: what to do after each attempt to put
//! a message on a bounded queue. The caller makes the attempts and waits out
//! the delays; the rules stand here.
use vstd::prelude::*;

verus! {

/// How often a send is attempted against a full queue, and the delay from
/// which the waits between the attempts are doubled.
#[derive(Debug, Clone, Copy, PartialEq, Eq, Structural)]
pub struct RetryPolicy {
    pub max_attempts: u32,
    pub base_delay_ms: u64,
}

/// What one attempt to enqueue a message came to.
#[derive(Debug, Clone, Copy, PartialEq, Eq, Structural)]
pub enum SendAttempt {
    /// The queue took the message.
    Accepted,
    /// The queue was full; the message is still with the sender.
    Full,
    /// The receiving side is gone.
    Closed,
}

/// What the sender does after an attempt.
#[derive(Debug, Clone, Copy, PartialEq, Eq, Structural)]
pub enum SendDecision {
    /// The message is on the queue; nothing more is sent.
    Delivered,
    /// Wait this many milliseconds, then attempt again.
    RetryAfter { delay_ms: u64 },
    /// The queue stayed full for every attempt the policy allows: the message
    /// is dropped and the loss is recorded, with the number of attempts that
    /// the policy allowed.
    DropFull { attempts: u32 },
    /// The queue is closed: the message is dropped and the loss is recorded.
    DropClosed,
}

/// The delay after `failed` attempts that found the queue full: the base
/// delay doubled `failed` times.
pub open spec fn backoff_ms(base_delay_ms: u64, failed: nat) -> int
    decreases failed,
{
    if failed == 0 {
        base_delay_ms as int
    } else {
        2 * backoff_ms(base_delay_ms, (failed - 1) as nat)
    }
}

/// The delay as the sender uses it: `backoff_ms`, held at the largest `u64`.
pub open spec fn capped_backoff_ms(base_delay_ms: u64, failed: nat) -> u64 {
    if backoff_ms(base_delay_ms, failed) > u64::MAX {
        u64::MAX
    } else {
        backoff_ms(base_delay_ms, failed) as u64
    }
}

/// The decision after an attempt, where `failed_before` earlier attempts of
/// the same send found the queue full.
pub open spec fn decision_after(
    policy: RetryPolicy,
    failed_before: u32,
    outcome: SendAttempt,
) -> SendDecision {
    match outcome {
        SendAttempt::Accepted => SendDecision::Delivered,
        SendAttempt::Closed => SendDecision::DropClosed,
        SendAttempt::Full => if failed_before + 1 >= policy.max_attempts {
            SendDecision::DropFull { attempts: policy.max_attempts }
        } else {
            SendDecision::RetryAfter {
                delay_ms: capped_backoff_ms(policy.base_delay_ms, (failed_before + 1) as nat),
            }
        },
    }
}

/// The decisions of one send, given what its attempts come to in turn: one
/// decision for each attempt that is made, and no attempt after a decision
/// other than `RetryAfter`.
pub open spec fn decisions_of_send(
    policy: RetryPolicy,
    failed_before: u32,
    outcomes: Seq<SendAttempt>,
) -> Seq<SendDecision>
    decreases outcomes.len(),
{
    if outcomes.len() == 0 {
        Seq::empty()
    } else {
        let first = decision_after(policy, failed_before, outcomes[0]);
        if first is RetryAfter {
            seq![first] + decisions_of_send(
                policy,
                (failed_before + 1) as u32,
                outcomes.drop_first(),
            )
        } else {
            seq![first]
        }
    }
}

impl RetryPolicy {
    /// A policy of `max_attempts` attempts and a first delay of
    /// `base_delay_ms` milliseconds.
    pub fn new(max_attempts: u32, base_delay_ms: u64) -> (r: RetryPolicy)
        ensures
            r.max_attempts == max_attempts,
            r.base_delay_ms == base_delay_ms,
    {
        RetryPolicy { max_attempts, base_delay_ms }
    }

    /// The policy that the actors use: five attempts, and 100 ms doubled once
    /// for every attempt that failed.
    pub fn standard() -> (r: RetryPolicy)
        ensures
            r.max_attempts == 5,
            r.base_delay_ms == 100,
    {
        RetryPolicy { max_attempts: 5, base_delay_ms: 100 }
    }

    /// The delay before the next attempt, after `failed` attempts that found
    /// the queue full.
    pub fn backoff_delay(&self, failed: u32) -> (r: u64)
        ensures
            r == capped_backoff_ms(self.base_delay_ms, failed as nat),
    {
        let mut delay: u64 = self.base_delay_ms;
        let mut doubled: u32 = 0;
        while doubled < failed && 0 < delay && delay < u64::MAX
            invariant
                doubled <= failed,
                delay == capped_backoff_ms(self.base_delay_ms, doubled as nat),
            decreases failed - doubled,
        {
            proof {
                lemma_backoff_grows(self.base_delay_ms, doubled as nat, doubled as nat);
                assert(backoff_ms(self.base_delay_ms, (doubled + 1) as nat) == 2 * backoff_ms(
                    self.base_delay_ms,
                    doubled as nat,
                ));
            }
            delay = if delay > u64::MAX / 2 {
                u64::MAX
            } else {
                delay * 2
            };
            doubled += 1;
        }
        proof {
            lemma_backoff_grows(self.base_delay_ms, doubled as nat, failed as nat);
        }
        delay
    }

    /// Decides what follows an attempt, where `failed_before` earlier attempts
    /// of the same send found the queue full.
    pub fn decide(&self, failed_before: u32, outcome: SendAttempt) -> (r: SendDecision)
        ensures
            r == decision_after(*self, failed_before, outcome),
    {
        match outcome {
            SendAttempt::Accepted => SendDecision::Delivered,
            SendAttempt::Closed => SendDecision::DropClosed,
            SendAttempt::Full => {
                if failed_before >= self.max_attempts || failed_before + 1 >= self.max_attempts {
                    SendDecision::DropFull { attempts: self.max_attempts }
                } else {
                    SendDecision::RetryAfter { delay_ms: self.backoff_delay(failed_before + 1) }
                }
            },
        }
    }
}

/// The delay never shrinks from one failed attempt to the next, and a base
/// delay of nothing stays nothing.
pub proof fn lemma_backoff_grows(base_delay_ms: u64, fewer: nat, more: nat)
    requires
        fewer <= more,
    ensures
        backoff_ms(base_delay_ms, fewer) <= backoff_ms(base_delay_ms, more),
        capped_backoff_ms(base_delay_ms, fewer) <= capped_backoff_ms(base_delay_ms, more),
        base_delay_ms <= backoff_ms(base_delay_ms, fewer),
        base_delay_ms == 0 ==> backoff_ms(base_delay_ms, more) == 0,
    decreases more,
{
    if fewer < more {
        lemma_backoff_grows(base_delay_ms, fewer, (more - 1) as nat);
    } else if more > 0 {
        lemma_backoff_grows(base_delay_ms, (fewer - 1) as nat, (more - 1) as nat);
    }
}

/// No duplicate delivery: in the decisions of one send every decision but the
/// last is a retry, so the message is delivered at most once, or dropped at
/// most once, and never both; and there are never more decisions than
/// attempts.
pub proof fn lemma_send_ends_once(
    policy: RetryPolicy,
    failed_before: u32,
    outcomes: Seq<SendAttempt>,
)
    ensures
        decisions_of_send(policy, failed_before, outcomes).len() <= outcomes.len(),
        forall|i: int|
            0 <= i < decisions_of_send(policy, failed_before, outcomes).len() - 1
                ==> #[trigger] decisions_of_send(policy, failed_before, outcomes)[i] is RetryAfter,
    decreases outcomes.len(),
{
    if outcomes.len() > 0 {
        let first = decision_after(policy, failed_before, outcomes[0]);
        if first is RetryAfter {
            let rest = decisions_of_send(policy, (failed_before + 1) as u32, outcomes.drop_first());
            lemma_send_ends_once(policy, (failed_before + 1) as u32, outcomes.drop_first());
            assert forall|i: int|
                0 <= i < decisions_of_send(policy, failed_before, outcomes).len()
                    - 1 implies #[trigger] decisions_of_send(
                policy,
                failed_before,
                outcomes,
            )[i] is RetryAfter by {
                if i > 0 {
                    assert(decisions_of_send(policy, failed_before, outcomes)[i] == rest[i - 1]);
                }
            }
        }
    }
}

/// A queue that stays full uses up the budget and no more: where the policy
/// allows `max_attempts` attempts in all, `failed_before` of them have failed
/// and the next `max_attempts - failed_before` find the queue full, the send
/// makes exactly these attempts, retries after each but the last, and drops
/// the message once, after the last.
pub proof fn lemma_full_queue_exhausts_budget(
    policy: RetryPolicy,
    failed_before: u32,
    outcomes: Seq<SendAttempt>,
)
    requires
        failed_before < policy.max_attempts,
        outcomes.len() >= policy.max_attempts - failed_before,
        forall|i: int| 0 <= i < policy.max_attempts - failed_before ==> outcomes[i] == SendAttempt::Full,
    ensures
        decisions_of_send(policy, failed_before, outcomes).len() == policy.max_attempts
            - failed_before,
        forall|i: int|
            0 <= i < policy.max_attempts - failed_before - 1 ==> #[trigger] decisions_of_send(
                policy,
                failed_before,
                outcomes,
            )[i] == (SendDecision::RetryAfter {
                delay_ms: capped_backoff_ms(policy.base_delay_ms, (failed_before + i + 1) as nat),
            }),
        decisions_of_send(policy, failed_before, outcomes).last() == (SendDecision::DropFull {
            attempts: policy.max_attempts,
        }),
    decreases outcomes.len(),
{
    let all = decisions_of_send(policy, failed_before, outcomes);
    let first = decision_after(policy, failed_before, outcomes[0]);
    assert(outcomes[0] == SendAttempt::Full);
    if failed_before + 1 < policy.max_attempts {
        let next = (failed_before + 1) as u32;
        let tail = outcomes.drop_first();
        assert forall|i: int| 0 <= i < policy.max_attempts - next implies tail[i]
            == SendAttempt::Full by {
            assert(tail[i] == outcomes[i + 1]);
        }
        lemma_full_queue_exhausts_budget(policy, next, tail);
        let rest = decisions_of_send(policy, next, tail);
        assert(all == seq![first] + rest);
        assert(all.last() == rest.last());
        assert forall|i: int| 0 <= i < policy.max_attempts - failed_before - 1 implies #[trigger] all[i]
            == (SendDecision::RetryAfter {
            delay_ms: capped_backoff_ms(policy.base_delay_ms, (failed_before + i + 1) as nat),
        }) by {
            if i > 0 {
                assert(all[i] == rest[i - 1]);
            }
        }
    } else {
        assert(all == seq![first]);
    }
}

} // verus!
