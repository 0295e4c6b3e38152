//! A timer built on a one-shot notification: construction starts the
//! background thread at once, and the computation merely waits for the
//! shared `completed` flag, leaving its token for the thread to invoke.

use crate::chan::{arc_dup, now_ms};
use crate::excutor2::wait_for_deadline;
use crate::task::{Step, Token};
use std::sync::Arc;
use vstd::prelude::*;
use vstd::rwlock::{RwLock, RwLockPredicate};

verus! {

/// State shared between the computation and its background thread.
struct SharedState {
    completed: bool,
    waker: Option<Token>,
}

/// The predicate of the shared cell: any state is fine.
pub struct SharedCell {}

impl RwLockPredicate<SharedState> for SharedCell {
    open spec fn inv(self, v: SharedState) -> bool {
        true
    }
}

/// A leaf computation that completes `duration_ms` milliseconds after its
/// construction.  The background thread set up by `new` sleeps out the
/// duration, then marks the shared state completed and invokes the stored
/// token, if a resumption has left one.
pub struct TimerFuture {
    shared_state: Arc<RwLock<SharedState, SharedCell>>,
    duration: Ghost<u64>,
}

/// One resumption against the cell state a poll has read: done, with the
/// empty result, exactly when the notification has fired; otherwise the
/// current token is stored — unconditionally, every resumption anew, so
/// that the latest owning task is always the wake target — and pending is
/// reported.
fn advance(state: SharedState, tok: &Token) -> (r: (SharedState, Step))
    ensures
        (r.1 is Done) == state.completed,
        state.completed ==> r.0 == state,
        (r.1 matches Step::Done(s) ==> s@ == Seq::<char>::empty()),
        !state.completed ==> (r.1 is Pending && !r.0.completed && (r.0.waker matches Some(t)
            && t.id() == tok.id())),
{
    if state.completed {
        (state, Step::Done(String::new()))
    } else {
        (SharedState { completed: false, waker: Some(tok.duplicate()) }, Step::Pending)
    }
}

impl TimerFuture {
    /// The duration, in milliseconds, this timer was created with.
    pub closed spec fn duration(&self) -> u64 {
        self.duration@
    }

    /// Starts the one background thread and hands back the computation.
    pub fn new(duration_ms: u64) -> (t: TimerFuture)
        ensures
            t.duration() == duration_ms,
    {
        let shared = Arc::new(
            RwLock::new(SharedState { completed: false, waker: None }, Ghost(SharedCell {})),
        );
        let cell = arc_dup(&shared);
        let now: u64 = now_ms();
        let deadline: u64 = now.saturating_add(duration_ms);
        crate::chan::spawn_detached(
            move || {
                wait_for_deadline(deadline);
                finish_and_wake(&cell);
            },
        );
        TimerFuture { shared_state: shared, duration: Ghost(duration_ms) }
    }

    /// One resumption: the `advance` transition, applied to the cell state
    /// under the cell's lock — done once the background thread has
    /// signalled, and before that the current token is stored.  Which arm
    /// runs depends on what the thread has done so far, so only `advance`
    /// can pin the outcome table; this contract carries what holds of every
    /// outcome.
    pub fn poll(&self, tok: &Token) -> (r: Step)
        ensures
            (r matches Step::Done(s) ==> s@ == Seq::<char>::empty()),
    {
        let (state, handle) = self.shared_state.acquire_write();
        let (next, r) = advance(state, tok);
        handle.release_write(next);
        r
    }
}

/// Marks the shared state completed and invokes the stored token, if any.
fn finish_and_wake(cell: &Arc<RwLock<SharedState, SharedCell>>) {
    let (mut state, handle) = cell.acquire_write();
    state.completed = true;
    let mut waker: Option<Token> = None;
    core::mem::swap(&mut state.waker, &mut waker);
    handle.release_write(state);
    match waker {
        Some(t) => t.invoke(),
        None => {},
    }
}

} // verus!
