use backon::{Backoff, BackoffBuilder, Condition, Notifier, Retry, Retryable, Step};
use std::cell::{Cell, RefCell};
use std::rc::Rc;
use std::time::Duration;

/// Drives a retry of a synchronous operation to its end, recording each delay
/// the engine asked for.
fn drive<B, A, F, SF, RF, NF, T, E>(
    r: &mut Retry<B, E, A, F, SF, RF, NF>,
    waits: &mut Vec<Duration>,
) -> Result<T, E>
where
    B: Backoff,
    F: FnMut(&A) -> Result<T, E>,
    RF: Condition<E>,
    NF: Notifier<E>,
{
    loop {
        let outcome = r.start_attempt();
        match r.finish_attempt(outcome) {
            Step::Ready(result) => return result,
            Step::Wait(dur) => {
                waits.push(dur);
                r.finish_sleep();
            }
        }
    }
}

fn ms(n: u64) -> Duration {
    Duration::from_millis(n)
}

/// A backoff policy that yields the given delays and counts its advances.
struct Counted {
    delays: Vec<Duration>,
    pos: usize,
    advances: Rc<Cell<usize>>,
}

impl Iterator for Counted {
    type Item = Duration;

    fn next(&mut self) -> Option<Duration> {
        self.advances.set(self.advances.get() + 1);
        let d = self.delays.get(self.pos).copied();
        self.pos += 1;
        d
    }
}

#[test]
fn always_failing_with_two_delays() {
    let calls = Cell::new(0usize);
    let notes = RefCell::new(Vec::new());
    let op = |_: &()| -> Result<String, String> {
        calls.set(calls.get() + 1);
        Err("E".to_string())
    };
    let mut r = Retry::new(op, vec![ms(1), ms(2)].into_iter(), ())
        .when(|_: &String| true)
        .notify(|e: &String, d: Duration| notes.borrow_mut().push((e.clone(), d)));
    let mut waits = Vec::new();
    let result = drive(&mut r, &mut waits);
    assert_eq!(result, Err("E".to_string()));
    assert_eq!(calls.get(), 3);
    assert_eq!(
        *notes.borrow(),
        vec![("E".to_string(), ms(1)), ("E".to_string(), ms(2))]
    );
    assert_eq!(waits, vec![ms(1), ms(2)]);
}

#[test]
fn fails_once_then_succeeds() {
    let calls = Cell::new(0usize);
    let notes = RefCell::new(Vec::new());
    let op = |_: &()| -> Result<String, String> {
        calls.set(calls.get() + 1);
        if calls.get() == 1 {
            Err("E".to_string())
        } else {
            Ok("V".to_string())
        }
    };
    let mut r = Retry::new(op, vec![ms(5), ms(10), ms(20)].into_iter(), ())
        .notify(|e: &String, d: Duration| notes.borrow_mut().push((e.clone(), d)));
    let mut waits = Vec::new();
    let result = drive(&mut r, &mut waits);
    assert_eq!(result, Ok("V".to_string()));
    assert_eq!(calls.get(), 2);
    assert_eq!(*notes.borrow(), vec![("E".to_string(), ms(5))]);
    assert_eq!(waits, vec![ms(5)]);
}

#[test]
fn rejected_failure_is_final() {
    let calls = Cell::new(0usize);
    let notes = Cell::new(0usize);
    let advances = Rc::new(Cell::new(0usize));
    let policy = Counted { delays: vec![ms(1), ms(2)], pos: 0, advances: advances.clone() };
    let op = |_: &()| -> Result<(), String> {
        calls.set(calls.get() + 1);
        Err("E".to_string())
    };
    let mut r = Retry::new(op, policy, ())
        .when(|e: &String| e != "E")
        .notify(|_: &String, _: Duration| notes.set(notes.get() + 1));
    let mut waits = Vec::new();
    let result = drive(&mut r, &mut waits);
    assert_eq!(result, Err("E".to_string()));
    assert_eq!(calls.get(), 1);
    assert_eq!(notes.get(), 0);
    assert_eq!(advances.get(), 0);
    assert!(waits.is_empty());
}

#[test]
fn first_success_touches_nothing() {
    let judged = Cell::new(0usize);
    let notes = Cell::new(0usize);
    let advances = Rc::new(Cell::new(0usize));
    let policy = Counted { delays: vec![ms(1)], pos: 0, advances: advances.clone() };
    let op = |x: &u32| -> Result<u32, String> { Ok(*x + 1) };
    let mut r = Retry::new(op, policy, 41)
        .when(|_: &String| {
            judged.set(judged.get() + 1);
            true
        })
        .notify(|_: &String, _: Duration| notes.set(notes.get() + 1));
    let mut waits = Vec::new();
    let result = drive(&mut r, &mut waits);
    assert_eq!(result, Ok(42));
    assert_eq!(judged.get(), 0);
    assert_eq!(notes.get(), 0);
    assert_eq!(advances.get(), 0);
    assert!(waits.is_empty());
}

#[test]
fn exhausted_policy_gives_n_plus_one_attempts() {
    let calls = Cell::new(0usize);
    let advances = Rc::new(Cell::new(0usize));
    let policy = Counted { delays: vec![ms(3), ms(6), ms(9)], pos: 0, advances: advances.clone() };
    let op = |_: &()| -> Result<(), usize> {
        calls.set(calls.get() + 1);
        Err(calls.get())
    };
    let mut r = Retry::new(op, policy, ());
    let mut waits = Vec::new();
    let result = drive(&mut r, &mut waits);
    assert_eq!(calls.get(), 4);
    assert_eq!(advances.get(), 4);
    assert_eq!(result, Err(4));
    assert_eq!(waits, vec![ms(3), ms(6), ms(9)]);
}

#[test]
fn empty_policy_means_no_retry() {
    let calls = Cell::new(0usize);
    let op = |_: &()| -> Result<(), &'static str> {
        calls.set(calls.get() + 1);
        Err("E")
    };
    let mut r = Retry::new(op, Vec::<Duration>::new().into_iter(), ());
    let mut waits = Vec::new();
    assert_eq!(drive(&mut r, &mut waits), Err("E"));
    assert_eq!(calls.get(), 1);
    assert!(waits.is_empty());
}

#[test]
fn predicate_sees_each_failure_notifier_each_retry() {
    let judged = Cell::new(0usize);
    let notes = Cell::new(0usize);
    let op = |_: &()| -> Result<(), &'static str> { Err("retryable") };
    let mut r = Retry::new(op, vec![ms(1), ms(1), ms(1)].into_iter(), ())
        .when(|_: &&'static str| {
            judged.set(judged.get() + 1);
            true
        })
        .notify(|_: &&'static str, _: Duration| notes.set(notes.get() + 1));
    let mut waits = Vec::new();
    assert_eq!(drive(&mut r, &mut waits), Err("retryable"));
    assert_eq!(judged.get(), 4);
    assert_eq!(notes.get(), 3);
}

#[test]
fn dropped_while_sleeping_invokes_nothing_more() {
    let calls = Cell::new(0usize);
    {
        let op = |_: &()| -> Result<(), &'static str> {
            calls.set(calls.get() + 1);
            Err("E")
        };
        let mut r = Retry::new(op, vec![ms(50), ms(50)].into_iter(), ());
        let outcome = r.start_attempt();
        match r.finish_attempt(outcome) {
            Step::Wait(d) => assert_eq!(d, ms(50)),
            Step::Ready(_) => panic!("expected a delay"),
        }
        drop(r);
    }
    assert_eq!(calls.get(), 1);
}

#[test]
fn sleeper_replaced_by_builder() {
    let op = |_: &()| -> Result<(), &'static str> { Ok(()) };
    let r: Retry<_, &str, _, _, _, _, _> =
        Retry::new(op, Vec::<Duration>::new().into_iter(), ()).sleep(7u8);
    assert_eq!(*r.sleeper_ref(), 7u8);
}

/// Builds a policy of two fixed delays.
struct TwoDelays;

impl BackoffBuilder for TwoDelays {
    type Backoff = std::vec::IntoIter<Duration>;

    fn build(&self) -> Self::Backoff {
        vec![ms(1), ms(2)].into_iter()
    }
}

#[test]
fn retryable_builds_a_fresh_policy_each_time() {
    let calls = Cell::new(0usize);
    let op = |x: &u8| -> Result<(), u8> {
        calls.set(calls.get() + 1);
        Err(*x)
    };
    let mut r = op.retry(&TwoDelays, 9u8);
    let mut waits = Vec::new();
    assert_eq!(drive(&mut r, &mut waits), Err(9));
    assert_eq!(calls.get(), 3);
    let mut again = op.retry(&TwoDelays, 9u8);
    let mut waits_again = Vec::new();
    assert_eq!(drive(&mut again, &mut waits_again), Err(9));
    assert_eq!(waits_again, vec![ms(1), ms(2)]);
    assert_eq!(calls.get(), 6);
}
