//! The trusted boundary of the runtime: declarations for the pieces of std
//! that carry values between threads or read the clock, and for the outside
//! crate that lends out worker threads.
//!
//! Verus has no specification for `std::sync::mpsc`, for the system clock
//! or for `threadpool`, so the items here are taken on trust.  Their
//! contracts deliberately claim almost nothing: what a channel delivers or
//! what time it is depends on other threads and on the machine, so the
//! verified callers are written to be correct for every possible outcome.

use std::sync::Arc;
use vstd::prelude::*;

verus! {

#[verifier::external_type_specification]
#[verifier::external_body]
#[verifier::reject_recursive_types(T)]
pub struct ExSender<T>(std::sync::mpsc::Sender<T>);

#[verifier::external_type_specification]
#[verifier::external_body]
#[verifier::reject_recursive_types(T)]
pub struct ExReceiver<T>(std::sync::mpsc::Receiver<T>);

#[verifier::external_type_specification]
#[verifier::external_body]
#[verifier::reject_recursive_types(T)]
pub struct ExSendError<T>(std::sync::mpsc::SendError<T>);

#[verifier::external_type_specification]
#[verifier::external_body]
pub struct ExRecvError(std::sync::mpsc::RecvError);

#[verifier::external_type_specification]
#[verifier::external_body]
pub struct ExRecvTimeoutError(std::sync::mpsc::RecvTimeoutError);

/// Relies on std::sync::mpsc::channel: a fresh unbounded queue, given out as
/// its sending and receiving halves.
pub assume_specification<T>[ std::sync::mpsc::channel::<T> ]() -> (
    std::sync::mpsc::Sender<T>,
    std::sync::mpsc::Receiver<T>,
);

/// Relies on std::sync::mpsc::Sender::send: the value is queued unless every
/// receiver is gone; nothing can be promised about the shared queue itself.
pub assume_specification<T>[ std::sync::mpsc::Sender::<T>::send ](
    s: &std::sync::mpsc::Sender<T>,
    t: T,
) -> Result<(), std::sync::mpsc::SendError<T>>;

/// Relies on the Clone impl of std::sync::mpsc::Sender: another sending half
/// of the same queue.
pub assume_specification<T>[ <std::sync::mpsc::Sender<T> as Clone>::clone ](
    s: &std::sync::mpsc::Sender<T>,
) -> std::sync::mpsc::Sender<T>;

/// Relies on std::sync::mpsc::Receiver::recv: blocks until a value arrives or
/// every sender is gone; which value arrives depends on the other threads.
pub assume_specification<T>[ std::sync::mpsc::Receiver::<T>::recv ](
    r: &std::sync::mpsc::Receiver<T>,
) -> Result<T, std::sync::mpsc::RecvError>;

/// Relies on std::sync::mpsc::Receiver::recv_timeout: as `recv`, but gives up
/// after the timeout.
pub assume_specification<T>[ std::sync::mpsc::Receiver::<T>::recv_timeout ](
    r: &std::sync::mpsc::Receiver<T>,
    timeout: std::time::Duration,
) -> Result<T, std::sync::mpsc::RecvTimeoutError>;

/// Relies on core::time::Duration::from_millis.
pub assume_specification[ std::time::Duration::from_millis ](millis: u64) -> std::time::Duration;

#[verifier::external_type_specification]
#[verifier::external_body]
pub struct ExThreadPool(threadpool::ThreadPool);

/// Relies on threadpool::ThreadPool::new: starts `num_threads` worker
/// threads (it panics on zero).
pub assume_specification[ threadpool::ThreadPool::new ](num_threads: usize) -> threadpool::ThreadPool
    requires
        num_threads > 0,
;

/// Relies on threadpool::ThreadPool::execute: the job is handed to a worker
/// thread, which runs it to completion even if the pool handle is dropped
/// meanwhile.
pub assume_specification<F>[ threadpool::ThreadPool::execute ](pool: &threadpool::ThreadPool, job: F)
    where
        F: FnOnce() + Send + 'static,

    requires
        job.requires(()),
;

/// Runs `f` on a background thread of its own, detached: a one-worker pool
/// is started, given the job, and its handle dropped.
pub(crate) fn spawn_detached<F: FnOnce() + Send + 'static>(f: F)
    requires
        f.requires(()),
{
    let pool = threadpool::ThreadPool::new(1);
    pool.execute(f);
}

/// Relies on std::time::SystemTime::now: the wall clock, in whole
/// milliseconds since the UNIX epoch.  Two reads may give any values; the
/// callers only ever compare the result against deadlines of the same clock.
/// A clock set before the epoch reads as 0 — an unverified policy choice in
/// this body, consistent with "any value may come back".
#[verifier::external_body]
pub(crate) fn now_ms() -> u64 {
    match std::time::SystemTime::now().duration_since(std::time::UNIX_EPOCH) {
        Ok(d) => d.as_millis() as u64,
        Err(_) => 0,
    }
}

/// Relies on the Clone impl of std::sync::Arc: a second handle to the very
/// same allocation, so the two handles are equal values.
#[verifier::external_body]
pub(crate) fn arc_dup<T>(a: &Arc<T>) -> (r: Arc<T>)
    ensures
        r == *a,
{
    Arc::clone(a)
}

} // verus!
