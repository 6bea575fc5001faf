//! Where a message goes after a delivery pass, and when a deferred message
//! is ready for another try.
//!
//! The queue placement is derived from the aggregate recipient statuses:
//! any permanent failure or transportless recipient forces the dead queue;
//! otherwise any held-back recipient forces the deferred queue; otherwise
//! everything was sent and the message leaves the queues entirely.  A
//! deferred message is retried once its oldest last error is
//! `held_back_count * 5` minutes old.

use vstd::prelude::*;

use crate::context::MailContext;
use crate::queue::{MessageQueues, QueueID};
use crate::transfer::{rcpts_view, EmailTransferStatus, Rcpt, RcptV};

verus! {

/// What one delivery pass decided for a whole message.
#[derive(Debug, Clone, Copy, PartialEq, Eq, Structural)]
pub enum SenderOutcome {
    /// Some recipient failed permanently or has no transport.
    MoveToDead,
    /// No permanent failure, but some recipient is held back.
    MoveToDeferred,
    /// Every recipient was sent; nothing is left to keep.
    RemoveFromDisk,
}

/// Whether a recipient forces the dead queue: a permanent failure, or no
/// transport at all.
pub open spec fn forces_dead(r: RcptV) -> bool {
    r.email_status is Failed || r.transfer_method is NoTransport
}

/// The queue placement derived from the recipient statuses.
pub open spec fn sender_outcome_v(s: Seq<RcptV>) -> SenderOutcome {
    if exists|i: int| 0 <= i < s.len() && forces_dead(#[trigger] s[i]) {
        SenderOutcome::MoveToDead
    } else if exists|i: int| 0 <= i < s.len() && (#[trigger] s[i]).email_status is HeldBack {
        SenderOutcome::MoveToDeferred
    } else {
        SenderOutcome::RemoveFromDisk
    }
}

/// Derive the queue placement from the recipient statuses.
pub fn sender_outcome(rcpts: &Vec<Rcpt>) -> (o: SenderOutcome)
    ensures
        o == sender_outcome_v(rcpts_view(rcpts@)),
{
    let ghost all = rcpts_view(rcpts@);
    let n = rcpts.len();
    let mut any_dead = false;
    let mut any_held = false;
    let mut i: usize = 0;
    while i < n
        invariant
            i <= n,
            n == rcpts@.len(),
            all == rcpts_view(rcpts@),
            any_dead == exists|k: int| 0 <= k < i && forces_dead(#[trigger] all[k]),
            any_held == exists|k: int| 0 <= k < i && (#[trigger] all[k]).email_status
                is HeldBack,
        decreases n - i,
    {
        let dead = match (&rcpts[i].email_status, &rcpts[i].transfer_method) {
            (EmailTransferStatus::Failed { .. }, _) => true,
            (_, crate::transfer::Transfer::NoTransport) => true,
            _ => false,
        };
        let held = matches!(&rcpts[i].email_status, EmailTransferStatus::HeldBack { .. });
        proof {
            assert(all[i as int] == rcpts@[i as int]@);
            assert(dead == forces_dead(all[i as int]));
            assert(held == (all[i as int].email_status is HeldBack));
        }
        any_dead = any_dead || dead;
        any_held = any_held || held;
        i = i + 1;
    }
    if any_dead {
        SenderOutcome::MoveToDead
    } else if any_held {
        SenderOutcome::MoveToDeferred
    } else {
        SenderOutcome::RemoveFromDisk
    }
}

/// Apply a delivery pass's result: store the updated recipients back into
/// the message's context and place the message after its outcome — the
/// dead queue, the deferred queue, or removed from disk entirely.
pub fn move_to_queue(
    queues: &mut MessageQueues,
    from: QueueID,
    uuid: u128,
    rcpts: Vec<Rcpt>,
) -> (o: SenderOutcome)
    requires
        old(queues).wf(),
        old(queues).queue_of(uuid) == Some(from),
        old(queues).ctx_of(uuid).message_uuid == uuid,
    ensures
        final(queues).wf(),
        o == sender_outcome_v(rcpts_view(rcpts@)),
        o == SenderOutcome::MoveToDead ==> final(queues).queue_of(uuid) == Some(QueueID::Dead),
        o == SenderOutcome::MoveToDeferred ==> final(queues).queue_of(uuid) == Some(
            QueueID::Deferred,
        ),
        o == SenderOutcome::RemoveFromDisk ==> !final(queues).has_msg(uuid),
        o != SenderOutcome::RemoveFromDisk ==> final(queues).ctx_of(uuid).forward_paths == rcpts
            && final(queues).ctx_of(uuid).message_uuid == uuid && final(queues).body_of(uuid)
            == old(queues).body_of(uuid),
        forall|u: u128| u != uuid ==> final(queues).has_msg(u) == old(queues).has_msg(u),
        forall|u: u128|
            u != uuid && old(queues).has_msg(u) ==> final(queues).queue_of(u) == old(queues).queue_of(u) && final(queues).ctx_of(u) == old(queues).ctx_of(u) && final(queues).body_of(u) == old(queues).body_of(u),
{
    let o = sender_outcome(&rcpts);
    let (mut ctx, body) = queues.take(from, uuid);
    ctx.forward_paths = rcpts;
    match o {
        SenderOutcome::MoveToDead => {
            queues.write_both(QueueID::Dead, ctx, body);
        },
        SenderOutcome::MoveToDeferred => {
            queues.write_both(QueueID::Deferred, ctx, body);
        },
        SenderOutcome::RemoveFromDisk => {},
    }
    o
}

/// The timestamp of a recipient's most recent error, where it is held back
/// and has one.
pub open spec fn last_error_ts(r: RcptV) -> Option<int> {
    match r.email_status {
        crate::transfer::EmailTransferStatusV::HeldBack { errors } => if errors.len() > 0 {
            Some(errors.last().timestamp)
        } else {
            None
        },
        _ => None,
    }
}

/// The smaller of two optional timestamps; one side alone wins.
pub open spec fn min_opt(a: Option<int>, b: Option<int>) -> Option<int> {
    match (a, b) {
        (Some(x), Some(y)) => if x <= y {
            Some(x)
        } else {
            Some(y)
        },
        (Some(x), None) => Some(x),
        (None, y) => y,
    }
}

/// The oldest of the recipients' most recent error timestamps.
pub open spec fn oldest_error_ts(s: Seq<RcptV>) -> Option<int>
    decreases s.len(),
{
    if s.len() == 0 {
        None
    } else {
        min_opt(oldest_error_ts(s.drop_last()), last_error_ts(s.last()))
    }
}

/// How many recipients are held back.
pub open spec fn held_back_count(s: Seq<RcptV>) -> int
    decreases s.len(),
{
    if s.len() == 0 {
        0
    } else {
        held_back_count(s.drop_last()) + if s.last().email_status is HeldBack {
            1int
        } else {
            0int
        }
    }
}

/// Retry readiness: a deferred message is ready once its oldest recorded
/// error is `held_back_count * 5` minutes old; with no recorded error it is
/// ready at once.
pub open spec fn retry_ready_v(s: Seq<RcptV>, now: int) -> bool {
    match oldest_error_ts(s) {
        None => true,
        Some(t) => t + held_back_count(s) * 300 <= now,
    }
}

/// The view of an optional machine timestamp.
pub open spec fn opt_ts_view(o: Option<i64>) -> Option<int> {
    match o {
        Some(t) => Some(t as int),
        None => None,
    }
}

/// Whether this recipient set is ready for another delivery attempt at
/// `now`.
pub fn retry_ready(rcpts: &Vec<Rcpt>, now: i64) -> (r: bool)
    ensures
        r == retry_ready_v(rcpts_view(rcpts@), now as int),
{
    let ghost all = rcpts_view(rcpts@);
    let n = rcpts.len();
    let mut count: usize = 0;
    let mut oldest: Option<i64> = None;
    let mut i: usize = 0;
    proof {
        assert(all.take(0) =~= Seq::<RcptV>::empty());
    }
    while i < n
        invariant
            i <= n,
            n == rcpts@.len(),
            all == rcpts_view(rcpts@),
            count <= i,
            count == held_back_count(all.take(i as int)),
            opt_ts_view(oldest) == oldest_error_ts(all.take(i as int)),
        decreases n - i,
    {
        proof {
            assert(all.take(i + 1).drop_last() =~= all.take(i as int));
            assert(all.take(i + 1).last() == all[i as int]);
            assert(all[i as int] == rcpts@[i as int]@);
        }
        match &rcpts[i].email_status {
            EmailTransferStatus::HeldBack { errors } => {
                count = count + 1;
                if errors.len() > 0 {
                    let t = errors[errors.len() - 1].timestamp;
                    proof {
                        assert(crate::transfer::records_view(errors@).last() == errors@.last()@);
                        assert(last_error_ts(all[i as int]) == Some(t as int));
                    }
                    oldest = match oldest {
                        Some(m) => if t <= m {
                            Some(t)
                        } else {
                            Some(m)
                        },
                        None => Some(t),
                    };
                } else {
                    proof {
                        assert(last_error_ts(all[i as int]) is None);
                    }
                }
            },
            _ => {
                proof {
                    assert(last_error_ts(all[i as int]) is None);
                    assert(!(all[i as int].email_status is HeldBack));
                }
            },
        }
        i = i + 1;
    }
    proof {
        assert(all.take(n as int) =~= all);
    }
    match oldest {
        Some(t) => (t as i128) + (count as i128) * 300 <= (now as i128),
        None => true,
    }
}

/// A status against the configured retry cap: a held-back recipient whose
/// recorded failure history has reached `max` entries is classified as
/// permanently failed, carrying its most recent error; everything else is
/// untouched.
pub open spec fn capped_status(
    s: crate::transfer::EmailTransferStatusV,
    max: int,
) -> crate::transfer::EmailTransferStatusV {
    match s {
        crate::transfer::EmailTransferStatusV::HeldBack { errors } => if errors.len() >= max
            && errors.len() > 0 {
            crate::transfer::EmailTransferStatusV::Failed { error: errors.last().variant }
        } else {
            s
        },
        _ => s,
    }
}

/// Enforce the configured retry cap over a recipient list: once a
/// recipient has accumulated `deferred_retry_max` recorded failures, it is
/// forced from held-back to permanently failed, so the next placement
/// dead-letters the message instead of retrying it forever.
pub fn enforce_retry_cap(rcpts: Vec<Rcpt>, deferred_retry_max: usize) -> (r: Vec<Rcpt>)
    ensures
        r@.len() == rcpts@.len(),
        forall|i: int|
            0 <= i < rcpts@.len() ==> rcpts_view(r@)[i] == (RcptV {
                address: rcpts_view(rcpts@)[i].address,
                transfer_method: rcpts_view(rcpts@)[i].transfer_method,
                email_status: capped_status(
                    rcpts_view(rcpts@)[i].email_status,
                    deferred_retry_max as int,
                ),
            }),
{
    let ghost orig = rcpts_view(rcpts@);
    let mut rcpts = rcpts;
    let mut i: usize = 0;
    while i < rcpts.len()
        invariant
            i <= rcpts@.len(),
            rcpts@.len() == orig.len(),
            forall|k: int| i <= k < orig.len() ==> rcpts@[k]@ == orig[k],
            forall|k: int|
                0 <= k < i ==> rcpts@[k]@ == (RcptV {
                    address: orig[k].address,
                    transfer_method: orig[k].transfer_method,
                    email_status: capped_status(
                        orig[k].email_status,
                        deferred_retry_max as int,
                    ),
                }),
        decreases rcpts.len() - i,
    {
        let exhausted: Option<crate::transfer::TransferError> = match &rcpts[i].email_status {
            EmailTransferStatus::HeldBack { errors } => {
                if errors.len() >= deferred_retry_max && errors.len() > 0 {
                    proof {
                        assert(crate::transfer::records_view(errors@).last() == errors@.last()@);
                    }
                    Some(errors[errors.len() - 1].variant.duplicate())
                } else {
                    None
                }
            },
            _ => None,
        };
        match exhausted {
            Some(error) => {
                rcpts[i].email_status = EmailTransferStatus::failed(error);
            },
            None => {},
        }
        i = i + 1;
    }
    rcpts
}

/// A recipient at the retry cap no longer counts as held back: its capped
/// status is a permanent failure, which forces the dead queue at the next
/// placement.
pub proof fn lemma_cap_forces_dead(s: Seq<RcptV>, max: int, i: int)
    requires
        0 <= i < s.len(),
        s[i].email_status matches crate::transfer::EmailTransferStatusV::HeldBack {
            errors,
        } && errors.len() >= max && errors.len() > 0,
    ensures
        capped_status(s[i].email_status, max) is Failed,
{
}

/// What a sweep of the deferred queue decides for one message.
#[derive(Debug, Clone, Copy, PartialEq, Eq, Structural)]
pub enum DeferredDecision {
    /// The message is not in the deferred queue: nothing to do.
    Missing,
    /// The message is there but its backoff has not elapsed: skipped, no
    /// side effects.
    NotReady,
    /// The message is due: re-run delivery over its recipients.
    Retry,
}

/// Check one deferred message at `flushing_at`: absent, not yet due, or
/// due for another delivery pass.
pub fn deferred_check(queues: &MessageQueues, uuid: u128, flushing_at: i64) -> (d:
    DeferredDecision)
    requires
        queues.wf(),
    ensures
        queues.queue_of(uuid) != Some(QueueID::Deferred) ==> d == DeferredDecision::Missing,
        queues.queue_of(uuid) == Some(QueueID::Deferred) ==> d == if retry_ready_v(
            rcpts_view(queues.ctx_of(uuid).forward_paths@),
            flushing_at as int,
        ) {
            DeferredDecision::Retry
        } else {
            DeferredDecision::NotReady
        },
{
    match queues.get_ctx(QueueID::Deferred, uuid) {
        Some(ctx) => {
            if retry_ready(&ctx.forward_paths, flushing_at) {
                DeferredDecision::Retry
            } else {
                DeferredDecision::NotReady
            }
        },
        None => DeferredDecision::Missing,
    }
}

/// A message whose recipients were all sent is removed from every queue:
/// its derived placement is removal, never a queue.
pub proof fn lemma_all_sent_removed(s: Seq<RcptV>)
    requires
        forall|i: int| 0 <= i < s.len() ==> (#[trigger] s[i]).email_status is Sent,
        forall|i: int| 0 <= i < s.len() ==> !((#[trigger] s[i]).transfer_method is NoTransport),
    ensures
        sender_outcome_v(s) == SenderOutcome::RemoveFromDisk,
{
}

/// A message with at least one held-back recipient and none that forces
/// the dead queue is placed in the deferred queue.
pub proof fn lemma_held_back_deferred(s: Seq<RcptV>)
    requires
        exists|i: int| 0 <= i < s.len() && (#[trigger] s[i]).email_status is HeldBack,
        forall|i: int| 0 <= i < s.len() ==> !forces_dead(#[trigger] s[i]),
    ensures
        sender_outcome_v(s) == SenderOutcome::MoveToDeferred,
{
}

/// A message with at least one permanently failed or transportless
/// recipient is placed in the dead queue, whatever the other recipients
/// did.
pub proof fn lemma_failure_dead(s: Seq<RcptV>, i: int)
    requires
        0 <= i < s.len(),
        forces_dead(s[i]),
    ensures
        sender_outcome_v(s) == SenderOutcome::MoveToDead,
{
}

/// Retry readiness for a message with two held-back recipients whose
/// oldest last error is at `t`: not retried before `t + 10` minutes, and
/// eligible at or after that instant.
pub proof fn lemma_retry_after_backoff(s: Seq<RcptV>, t: int, now: int)
    requires
        held_back_count(s) == 2,
        oldest_error_ts(s) == Some(t),
    ensures
        retry_ready_v(s, now) <==> now >= t + 600,
{
}

/// Re-running the deferred handler over a fully sent message re-sends
/// nothing: every recipient is excluded from transport dispatch, and the
/// derived placement removes the message, so a second run finds nothing at
/// all.
pub proof fn lemma_sent_idempotent(s: Seq<RcptV>)
    requires
        forall|i: int| 0 <= i < s.len() ==> (#[trigger] s[i]).email_status is Sent,
        forall|i: int| 0 <= i < s.len() ==> !((#[trigger] s[i]).transfer_method is NoTransport),
    ensures
        crate::delivery::dispatch_set(s) == Seq::<RcptV>::empty(),
        sender_outcome_v(s) == SenderOutcome::RemoveFromDisk,
    decreases s.len(),
{
    reveal(Seq::filter);
    if s.len() == 0 {
        assert(s.filter(|x: RcptV| crate::delivery::dispatchable(x)) =~= Seq::<RcptV>::empty());
    } else {
        lemma_sent_idempotent(s.drop_last());
        assert(!crate::delivery::dispatchable(s.last()));
        assert(s.filter(|x: RcptV| crate::delivery::dispatchable(x)) == s.drop_last().filter(
            |x: RcptV| crate::delivery::dispatchable(x),
        ));
    }
}

} // verus!
