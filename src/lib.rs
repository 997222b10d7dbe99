//! A retry combinator: the decisions of a retrying operation as a verified
//! state machine, and the policies that steer it.

pub mod laws;
pub mod policy;
pub mod retry;

pub use policy::{Backoff, BackoffBuilder, Condition, DefaultSleeper, NoNotify, Notifier, RetryAll};
pub use retry::{Retry, Retryable, State, Step};
