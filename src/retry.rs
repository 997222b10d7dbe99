//! The retry engine: which step follows each event of a retried operation.
//!
//! The engine owns the operation, its fixed arguments and the backoff policy.
//! A driver asks it to start an attempt, hands it the outcome of the attempt,
//! and tells it when a delay is over; the engine answers with what is to be
//! done next. Ghost logs record every call the engine made to the operation,
//! the predicate, the backoff policy and the notification callback.

use crate::policy::{Backoff, BackoffBuilder, Condition, DefaultSleeper, NoNotify, Notifier, RetryAll};
use std::time::Duration;
use vstd::prelude::*;
use vstd::std_specs::iter::IteratorSpec;

verus! {

/// The phase of a retry engine. At most one suspension is outstanding.
pub enum State {
    /// No attempt is in flight; the next step invokes the operation.
    Idle,
    /// An invocation of the operation is in flight.
    Polling,
    /// A delay is in flight before the next attempt.
    Sleeping,
    /// The engine has resolved and must not be driven again.
    Done,
}

/// What follows a finished attempt.
pub enum Step<T, E> {
    /// Wait for this delay, then start the next attempt.
    Wait(Duration),
    /// The final result of the retried operation.
    Ready(Result<T, E>),
}

/// A retrying operation: the operation `F` with its arguments `A`, the
/// backoff policy `B`, the sleeper `SF`, the predicate `RF` and the
/// notification callback `NF`, for an operation whose failures are `E`.
pub struct Retry<B, E, A, F, SF, RF, NF> {
    backoff: B,
    retryable: RF,
    notify: NF,
    sleep_fn: SF,
    args: A,
    future_fn: F,
    state: State,
    attempts: Ghost<nat>,
    judged: Ghost<Seq<(E, bool)>>,
    advanced: Ghost<Seq<Option<Duration>>>,
    notified: Ghost<Seq<(E, Duration)>>,
}

impl<B, E, A, F, SF, RF, NF> Retry<B, E, A, F, SF, RF, NF> {
    /// The current phase.
    pub closed spec fn state(&self) -> State {
        self.state
    }

    /// How many times the operation has been invoked.
    pub closed spec fn attempts(&self) -> nat {
        self.attempts@
    }

    /// Each failure handed to the predicate, with its answer, in order.
    pub closed spec fn judged(&self) -> Seq<(E, bool)> {
        self.judged@
    }

    /// Each answer of the backoff policy, in order.
    pub closed spec fn advanced(&self) -> Seq<Option<Duration>> {
        self.advanced@
    }

    /// Each call of the notification callback, with its arguments, in order.
    pub closed spec fn notified(&self) -> Seq<(E, Duration)> {
        self.notified@
    }

    pub closed spec fn backoff(&self) -> B {
        self.backoff
    }

    pub closed spec fn condition(&self) -> RF {
        self.retryable
    }

    pub closed spec fn notifier(&self) -> NF {
        self.notify
    }

    pub closed spec fn sleeper(&self) -> SF {
        self.sleep_fn
    }

    pub closed spec fn args(&self) -> A {
        self.args
    }

    pub closed spec fn operation(&self) -> F {
        self.future_fn
    }

    /// Every failure seen so far was retried: judged retryable, given a delay
    /// by the policy, and announced with that delay.
    pub open spec fn all_retried(&self) -> bool {
        let n = self.notified().len();
        &&& self.judged().len() >= n
        &&& self.advanced().len() >= n
        &&& forall|i: int|
            0 <= i < n ==> {
                &&& #[trigger] self.judged()[i] == (self.notified()[i].0, true)
                &&& self.advanced()[i] == Some(self.notified()[i].1)
            }
    }

    /// How the logs stand in each phase.
    pub open spec fn history_wf(&self) -> bool {
        let n = self.notified().len();
        &&& self.all_retried()
        &&& match self.state() {
            State::Idle => self.attempts() == n && self.judged().len() == n
                && self.advanced().len() == n,
            State::Sleeping => n >= 1 && self.attempts() == n && self.judged().len() == n
                && self.advanced().len() == n,
            State::Polling => self.attempts() == n + 1 && self.judged().len() == n
                && self.advanced().len() == n,
            State::Done => self.attempts() == n + 1 && (self.succeeded() || self.refused()
                || self.exhausted()),
        }
    }

    /// The last attempt succeeded: no failure of it reached the predicate.
    pub open spec fn succeeded(&self) -> bool {
        let n = self.notified().len();
        &&& self.state() is Done
        &&& self.judged().len() == n
        &&& self.advanced().len() == n
    }

    /// The last attempt failed and the predicate judged it not retryable.
    pub open spec fn refused(&self) -> bool {
        let n = self.notified().len();
        &&& self.state() is Done
        &&& self.judged().len() == n + 1
        &&& self.judged()[n as int].1 == false
        &&& self.advanced().len() == n
    }

    /// The last attempt failed, was retryable, and the policy had no delay left.
    pub open spec fn exhausted(&self) -> bool {
        let n = self.notified().len();
        &&& self.state() is Done
        &&& self.judged().len() == n + 1
        &&& self.judged()[n as int].1 == true
        &&& self.advanced().len() == n + 1
        &&& self.advanced()[n as int] is None
    }

    /// No attempt has been made yet.
    pub open spec fn fresh(&self) -> bool {
        &&& self.state() is Idle
        &&& self.attempts() == 0
        &&& self.judged().len() == 0
        &&& self.advanced().len() == 0
        &&& self.notified().len() == 0
    }
}

impl<B, E, A, F, SF, RF, NF> Retry<B, E, A, F, SF, RF, NF> where
    RF: Condition<E>,
    NF: Notifier<E>,
 {
    /// The predicate and the callback accept every argument.
    pub closed spec fn callbacks_wf(&self) -> bool {
        &&& forall|e: E| #[trigger] self.retryable.admits(&e)
        &&& forall|e: E, d: Duration| #[trigger] self.notify.admits(&e, d)
    }

    /// The invariant of a retry engine.
    pub open spec fn wf(&self) -> bool {
        self.history_wf() && self.callbacks_wf()
    }
}

impl<B, E, A, F> Retry<B, E, A, F, DefaultSleeper, RetryAll, NoNotify> where B: Backoff {
    /// A retry of `future_fn` on `args` along `backoff`, with the default
    /// sleeper, every failure retryable and no notification.
    pub fn new(future_fn: F, backoff: B, args: A) -> (r: Self)
        ensures
            r.wf(),
            r.fresh(),
            r.operation() == future_fn,
            r.backoff() == backoff,
            r.args() == args,
            r.condition() == RetryAll,
            r.notifier() == NoNotify,
            r.sleeper() == DefaultSleeper,
    {
        Retry {
            backoff,
            retryable: RetryAll,
            notify: NoNotify,
            sleep_fn: DefaultSleeper,
            args,
            future_fn,
            state: State::Idle,
            attempts: Ghost(0),
            judged: Ghost(Seq::empty()),
            advanced: Ghost(Seq::empty()),
            notified: Ghost(Seq::empty()),
        }
    }
}

/// Adds `retry` to every operation that, called on its arguments, produces
/// an attempt.
pub trait Retryable<B: BackoffBuilder, E, A, Fut>: Sized {
    /// A retry of this operation on `args`, along a policy fresh from `builder`.
    fn retry(self, builder: &B, args: A) -> (r: Retry<
        B::Backoff,
        E,
        A,
        Self,
        DefaultSleeper,
        RetryAll,
        NoNotify,
    >)
        ensures
            r.wf(),
            r.fresh(),
            r.operation() == self,
            r.args() == args,
            r.condition() == RetryAll,
            r.notifier() == NoNotify,
            r.sleeper() == DefaultSleeper,
    ;
}

impl<B: BackoffBuilder, E, A, Fut, F: FnMut(&A) -> Fut> Retryable<B, E, A, Fut> for F {
    fn retry(self, builder: &B, args: A) -> (r: Retry<
        B::Backoff,
        E,
        A,
        Self,
        DefaultSleeper,
        RetryAll,
        NoNotify,
    >) {
        Retry::new(self, builder.build(), args)
    }
}

impl<B, E, A, F, SF, RF, NF> Retry<B, E, A, F, SF, RF, NF> where
    B: Backoff,
    RF: Condition<E>,
    NF: Notifier<E>,
 {
    /// The same retry with `sleep_fn` as its sleeper.
    pub fn sleep<SN>(self, sleep_fn: SN) -> (r: Retry<B, E, A, F, SN, RF, NF>)
        requires
            self.wf(),
        ensures
            r.wf(),
            r.sleeper() == sleep_fn,
            r.state() == self.state(),
            r.attempts() == self.attempts(),
            r.judged() == self.judged(),
            r.advanced() == self.advanced(),
            r.notified() == self.notified(),
            r.backoff() == self.backoff(),
            r.condition() == self.condition(),
            r.notifier() == self.notifier(),
            r.args() == self.args(),
            r.operation() == self.operation(),
    {
        Retry {
            backoff: self.backoff,
            retryable: self.retryable,
            notify: self.notify,
            sleep_fn,
            args: self.args,
            future_fn: self.future_fn,
            state: self.state,
            attempts: self.attempts,
            judged: self.judged,
            advanced: self.advanced,
            notified: self.notified,
        }
    }

    /// The same retry with `retryable` deciding which failures are retried.
    pub fn when<RN: FnMut(&E) -> bool>(self, retryable: RN) -> (r: Retry<B, E, A, F, SF, RN, NF>)
        requires
            self.wf(),
            forall|e: &E| #[trigger] call_requires(retryable, (e,)),
        ensures
            r.wf(),
            r.condition() == retryable,
            r.state() == self.state(),
            r.attempts() == self.attempts(),
            r.judged() == self.judged(),
            r.advanced() == self.advanced(),
            r.notified() == self.notified(),
            r.backoff() == self.backoff(),
            r.notifier() == self.notifier(),
            r.sleeper() == self.sleeper(),
            r.args() == self.args(),
            r.operation() == self.operation(),
    {
        Retry {
            backoff: self.backoff,
            retryable,
            notify: self.notify,
            sleep_fn: self.sleep_fn,
            args: self.args,
            future_fn: self.future_fn,
            state: self.state,
            attempts: self.attempts,
            judged: self.judged,
            advanced: self.advanced,
            notified: self.notified,
        }
    }

    /// The same retry with `notify` called before each retry.
    pub fn notify<NN: FnMut(&E, Duration)>(self, notify: NN) -> (r: Retry<B, E, A, F, SF, RF, NN>)
        requires
            self.wf(),
            forall|e: &E, d: Duration| #[trigger] call_requires(notify, (e, d)),
        ensures
            r.wf(),
            r.notifier() == notify,
            r.state() == self.state(),
            r.attempts() == self.attempts(),
            r.judged() == self.judged(),
            r.advanced() == self.advanced(),
            r.notified() == self.notified(),
            r.backoff() == self.backoff(),
            r.condition() == self.condition(),
            r.sleeper() == self.sleeper(),
            r.args() == self.args(),
            r.operation() == self.operation(),
    {
        Retry {
            backoff: self.backoff,
            retryable: self.retryable,
            notify,
            sleep_fn: self.sleep_fn,
            args: self.args,
            future_fn: self.future_fn,
            state: self.state,
            attempts: self.attempts,
            judged: self.judged,
            advanced: self.advanced,
            notified: self.notified,
        }
    }

    /// The sleeper that performs the delays.
    pub fn sleeper_ref(&self) -> (r: &SF)
        ensures
            *r == self.sleeper(),
    {
        &self.sleep_fn
    }

    /// Starts an attempt: invokes the operation on the fixed arguments and
    /// returns what it produced, the pending attempt.
    pub fn start_attempt<Fut>(&mut self) -> (fut: Fut) where F: FnMut(&A) -> Fut
        requires
            old(self).wf(),
            old(self).state() is Idle,
            call_requires(old(self).operation(), (&old(self).args(),)),
        ensures
            final(self).wf(),
            final(self).state() is Polling,
            call_ensures(old(self).operation(), (&old(self).args(),), fut),
            final(self).attempts() == old(self).attempts() + 1,
            final(self).judged() == old(self).judged(),
            final(self).advanced() == old(self).advanced(),
            final(self).notified() == old(self).notified(),
            final(self).backoff() == old(self).backoff(),
            final(self).condition() == old(self).condition(),
            final(self).notifier() == old(self).notifier(),
            final(self).sleeper() == old(self).sleeper(),
            final(self).args() == old(self).args(),
            final(self).operation() == old(self).operation(),
    {
        let fut = (self.future_fn)(&self.args);
        self.state = State::Polling;
        self.attempts = Ghost(self.attempts@ + 1);
        fut
    }

    /// Takes the outcome of the attempt in flight and decides what follows.
    ///
    /// A success is final. A failure is handed to the predicate; if it is
    /// not retryable it is final. Otherwise the backoff policy is advanced:
    /// with no delay left the failure is final, and with a delay the
    /// notification callback is called with the failure and that delay, which
    /// is then to be awaited.
    pub fn finish_attempt<T>(&mut self, outcome: Result<T, E>) -> (r: Step<T, E>)
        requires
            old(self).wf(),
            old(self).state() is Polling,
        ensures
            final(self).wf(),
            final(self).attempts() == old(self).attempts(),
            final(self).sleeper() == old(self).sleeper(),
            final(self).args() == old(self).args(),
            final(self).operation() == old(self).operation(),
            match outcome {
                Ok(v) => {
                    &&& r == Step::<T, E>::Ready(Ok(v))
                    &&& final(self).state() is Done
                    &&& final(self).condition() == old(self).condition()
                    &&& final(self).notifier() == old(self).notifier()
                    &&& final(self).judged() == old(self).judged()
                    &&& final(self).advanced() == old(self).advanced()
                    &&& final(self).notified() == old(self).notified()
                    &&& final(self).backoff() == old(self).backoff()
                },
                Err(e) => {
                    let verdict = final(self).judged().last().1;
                    &&& old(self).condition().answers(&e, verdict)
                    &&& final(self).judged() == old(self).judged().push((e, verdict))
                    &&& !verdict ==> {
                        &&& r == Step::<T, E>::Ready(Err(e))
                        &&& final(self).state() is Done
                        &&& final(self).notifier() == old(self).notifier()
                        &&& final(self).advanced() == old(self).advanced()
                        &&& final(self).notified() == old(self).notified()
                        &&& final(self).backoff() == old(self).backoff()
                    }
                    &&& verdict ==> {
                        let next = final(self).advanced().last();
                        &&& final(self).advanced() == old(self).advanced().push(next)
                        &&& old(self).backoff().obeys_prophetic_iter_laws() ==> {
                            let ahead = old(self).backoff().remaining();
                            if ahead.len() > 0 {
                                &&& next == Some(ahead[0])
                                &&& final(self).backoff().remaining() == ahead.drop_first()
                            } else {
                                next is None
                            }
                        }
                        &&& next is None ==> {
                            &&& r == Step::<T, E>::Ready(Err(e))
                            &&& final(self).state() is Done
                            &&& final(self).notifier() == old(self).notifier()
                            &&& final(self).notified() == old(self).notified()
                        }
                        &&& next is Some ==> {
                            &&& r == Step::<T, E>::Wait(next->0)
                            &&& old(self).notifier().notes(&e, next->0)
                            &&& final(self).state() is Sleeping
                            &&& final(self).notified() == old(self).notified().push(
                                (e, next->0),
                            )
                        }
                    }
                },
            },
    {
        match outcome {
            Ok(v) => {
                self.state = State::Done;
                Step::Ready(Ok(v))
            },
            Err(err) => {
                let verdict = self.retryable.retryable(&err);
                self.judged = Ghost(self.judged@.push((err, verdict)));
                if !verdict {
                    self.state = State::Done;
                    return Step::Ready(Err(err));
                }
                let next = self.backoff.next();
                self.advanced = Ghost(self.advanced@.push(next));
                match next {
                    None => {
                        self.state = State::Done;
                        assert(self.all_retried());
                        Step::Ready(Err(err))
                    },
                    Some(dur) => {
                        self.notify.on_retry(&err, dur);
                        self.notified = Ghost(self.notified@.push((err, dur)));
                        self.state = State::Sleeping;
                        assert(self.all_retried());
                        Step::Wait(dur)
                    },
                }
            },
        }
    }

    /// The delay in flight is over: the engine is ready for the next attempt.
    pub fn finish_sleep(&mut self)
        requires
            old(self).wf(),
            old(self).state() is Sleeping,
        ensures
            final(self).wf(),
            final(self).state() is Idle,
            final(self).attempts() == old(self).attempts(),
            final(self).judged() == old(self).judged(),
            final(self).advanced() == old(self).advanced(),
            final(self).notified() == old(self).notified(),
            final(self).backoff() == old(self).backoff(),
            final(self).condition() == old(self).condition(),
            final(self).notifier() == old(self).notifier(),
            final(self).sleeper() == old(self).sleeper(),
            final(self).args() == old(self).args(),
            final(self).operation() == old(self).operation(),
    {
        self.state = State::Idle;
    }
}

} // verus!
