//! What holds of every run of a retry engine, stated over its logs.

use crate::policy::{Condition, Notifier};
use crate::retry::Retry;
use std::time::Duration;
use vstd::prelude::*;

verus! {

/// An operation that succeeds on its first invocation resolves without the
/// predicate, the backoff policy or the notification callback being called,
/// and without a delay.
pub proof fn lemma_first_success_touches_nothing<B, E, A, F, SF, RF, NF>(
    r: Retry<B, E, A, F, SF, RF, NF>,
) where RF: Condition<E>, NF: Notifier<E>
    requires
        r.wf(),
        r.succeeded(),
        r.attempts() == 1,
    ensures
        r.judged().len() == 0,
        r.advanced().len() == 0,
        r.notified().len() == 0,
{
}

/// When every failure is retryable and the backoff policy yields exactly `n`
/// delays and then stops, an operation that never succeeds is invoked
/// exactly `n + 1` times, the policy is advanced exactly `n + 1` times and
/// along its answers, and the failure of every invocation, the last one
/// last, went to the predicate.
pub proof fn lemma_exhausted_policy_bounds_attempts<B, E, A, F, SF, RF, NF>(
    r: Retry<B, E, A, F, SF, RF, NF>,
    policy: Seq<Option<Duration>>,
    n: nat,
) where RF: Condition<E>, NF: Notifier<E>
    requires
        r.wf(),
        r.state() is Done,
        !r.succeeded(),
        forall|i: int| 0 <= i < r.judged().len() ==> (#[trigger] r.judged()[i]).1,
        policy.len() == n + 1,
        forall|i: int| 0 <= i < n ==> (#[trigger] policy[i]) is Some,
        policy[n as int] is None,
        r.advanced().len() <= policy.len(),
        r.advanced() == policy.take(r.advanced().len() as int),
    ensures
        r.exhausted(),
        r.attempts() == n + 1,
        r.advanced() == policy,
        r.judged().len() == r.attempts(),
        r.notified().len() == n,
{
    let k = r.notified().len();
    assert(r.judged()[k as int].1);
    if k < n {
        assert(policy[k as int] is Some);
    }
    if k > n {
        assert(r.advanced()[n as int] == policy[n as int]);
    }
    assert(r.advanced() =~= policy);
}

/// When the predicate rejects every failure, the first failure is final:
/// the operation is invoked once, the backoff policy is never advanced and
/// nothing is notified.
pub proof fn lemma_rejected_failure_is_final<B, E, A, F, SF, RF, NF>(
    r: Retry<B, E, A, F, SF, RF, NF>,
) where RF: Condition<E>, NF: Notifier<E>
    requires
        r.wf(),
        r.state() is Done,
        r.judged().len() > 0,
        forall|i: int| 0 <= i < r.judged().len() ==> !(#[trigger] r.judged()[i]).1,
    ensures
        r.refused(),
        r.attempts() == 1,
        r.advanced().len() == 0,
        r.notified().len() == 0,
{
    if r.notified().len() > 0 {
        assert(r.judged()[0] == (r.notified()[0].0, true));
    }
}

/// The notification callback was called once for each retried attempt, with
/// the failure of that attempt and the delay the policy gave for it, and
/// never for the final attempt of a resolved run.
pub proof fn lemma_notified_once_per_retry<B, E, A, F, SF, RF, NF>(
    r: Retry<B, E, A, F, SF, RF, NF>,
) where RF: Condition<E>, NF: Notifier<E>
    requires
        r.wf(),
        r.state() is Done,
    ensures
        r.notified().len() + 1 == r.attempts(),
        forall|i: int|
            0 <= i < r.notified().len() ==> {
                &&& (#[trigger] r.notified()[i]).0 == r.judged()[i].0
                &&& r.judged()[i].1
                &&& r.advanced()[i] == Some(r.notified()[i].1)
            },
{
    assert forall|i: int| 0 <= i < r.notified().len() implies {
        &&& (#[trigger] r.notified()[i]).0 == r.judged()[i].0
        &&& r.judged()[i].1
        &&& r.advanced()[i] == Some(r.notified()[i].1)
    } by {
        assert(r.judged()[i] == (r.notified()[i].0, true));
    }
}

} // verus!
