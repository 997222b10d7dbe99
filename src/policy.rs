//! The pluggable parts of a retry: the backoff policy, the retryability
//! predicate, the notification callback and the sleeper.

use std::time::Duration;
use vstd::prelude::*;

verus! {

/// A backoff policy: a cursor over the delays to wait before each retry.
///
/// Each advance yields the next delay, or `None` once no more retries are
/// wanted. Every iterator of durations is a backoff policy.
pub trait Backoff: Iterator<Item = Duration> {

}

impl<I: Iterator<Item = Duration>> Backoff for I {

}

/// Builds a fresh, independent backoff policy for each retry.
pub trait BackoffBuilder {
    type Backoff: Backoff;

    fn build(&self) -> Self::Backoff;
}

/// Decides whether a failure is worth another attempt.
pub trait Condition<E> {
    /// The failures on which the predicate may be asked.
    spec fn admits(&self, err: &E) -> bool;

    /// Whether `r` is an answer the predicate may give on `err`.
    spec fn answers(&self, err: &E, r: bool) -> bool;

    fn retryable(&mut self, err: &E) -> (r: bool)
        requires
            old(self).admits(err),
        ensures
            old(self).answers(err, r),
            forall|e: E| old(self).admits(&e) ==> #[trigger] final(self).admits(&e),
    ;
}

/// The default predicate: every failure is retryable.
pub struct RetryAll;

impl<E> Condition<E> for RetryAll {
    open spec fn admits(&self, err: &E) -> bool {
        true
    }

    open spec fn answers(&self, err: &E, r: bool) -> bool {
        r
    }

    fn retryable(&mut self, err: &E) -> (r: bool) {
        true
    }
}

impl<E, F: FnMut(&E) -> bool> Condition<E> for F {
    open spec fn admits(&self, err: &E) -> bool {
        call_requires(*self, (err,))
    }

    open spec fn answers(&self, err: &E, r: bool) -> bool {
        call_ensures(*self, (err,), r)
    }

    fn retryable(&mut self, err: &E) -> (r: bool) {
        (self)(err)
    }
}

/// Observes each retry: the failure that triggered it and the delay that
/// will be awaited before the next attempt.
pub trait Notifier<E> {
    /// The arguments with which the callback may be called.
    spec fn admits(&self, err: &E, dur: Duration) -> bool;

    /// Whether a call with `err` and `dur` has been made and returned.
    spec fn notes(&self, err: &E, dur: Duration) -> bool;

    fn on_retry(&mut self, err: &E, dur: Duration)
        requires
            old(self).admits(err, dur),
        ensures
            old(self).notes(err, dur),
            forall|e: E, d: Duration| old(self).admits(&e, d) ==> #[trigger] final(self).admits(&e, d),
    ;
}

/// The default notification callback, which does nothing.
pub struct NoNotify;

impl<E> Notifier<E> for NoNotify {
    open spec fn admits(&self, err: &E, dur: Duration) -> bool {
        true
    }

    open spec fn notes(&self, err: &E, dur: Duration) -> bool {
        true
    }

    fn on_retry(&mut self, err: &E, dur: Duration) {
    }
}

impl<E, F: FnMut(&E, Duration)> Notifier<E> for F {
    open spec fn admits(&self, err: &E, dur: Duration) -> bool {
        call_requires(*self, (err, dur))
    }

    open spec fn notes(&self, err: &E, dur: Duration) -> bool {
        call_ensures(*self, (err, dur), ())
    }

    fn on_retry(&mut self, err: &E, dur: Duration) {
        (self)(err, dur)
    }
}

/// The sleeper used unless another is set: the host's own timer.
pub struct DefaultSleeper;

} // verus!
