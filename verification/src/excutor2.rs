//! The timer-based leaf computation and a small combined runtime.
//!
//! `Delay` is the canonical leaf: it completes once its deadline has passed,
//! and before that stores the newest suspension token in a guarded cell and
//! keeps exactly one background thread waiting to invoke whatever token the
//! cell then holds.  `MiniTokio` bundles a runner and a spawner into one
//! value, and `delay` builds the notification-style alternative.

use crate::chan::{arc_dup, now_ms};
use crate::excutor::{new_excutor_and_spwner, Excutor, QueueClosed, Spawner};
use crate::task::{Computation, Leaf, Step, Token};
use crate::timer_future::TimerFuture;
use std::sync::mpsc::{channel, Receiver, Sender};
use std::sync::Arc;
use std::time::Duration;
use vstd::prelude::*;
use vstd::rwlock::{RwLock, RwLockPredicate};

verus! {

/// The predicate of the token cell: any stored token (or none) is fine.
pub struct TokenCell {}

impl RwLockPredicate<Option<Token>> for TokenCell {
    open spec fn inv(self, v: Option<Token>) -> bool {
        true
    }
}

/// A leaf computation that completes once the wall clock reaches `when`
/// (milliseconds since the UNIX epoch).
///
/// While the deadline lies ahead, each resumption deposits its token in the
/// guarded cell — overwriting only when the stored token would wake a
/// different task, so that the cell always names the latest owner — and the
/// first resumption starts the single background thread that waits out the
/// deadline and then invokes whatever token the cell holds.
pub struct Delay {
    /// The absolute deadline, in milliseconds since the UNIX epoch.
    pub when: u64,
    pending_token: Arc<RwLock<Option<Token>, TokenCell>>,
    started: bool,
}

impl Delay {
    /// True once the background waiting thread has been started; it is
    /// started at most once.
    pub closed spec fn has_timer_thread(&self) -> bool {
        self.started
    }

    /// The absolute deadline, in milliseconds since the UNIX epoch.
    pub closed spec fn deadline(&self) -> u64 {
        self.when
    }

    /// A delay with deadline `when` and no stored token or thread yet.
    pub fn new(when: u64) -> (d: Delay)
        ensures
            d.deadline() == when,
            !d.has_timer_thread(),
    {
        Delay {
            when,
            pending_token: Arc::new(RwLock::new(None, Ghost(TokenCell {}))),
            started: false,
        }
    }

    /// How many background waiting threads this delay has started.
    pub fn timer_thread_count(&self) -> (n: u64)
        ensures
            n == if self.has_timer_thread() {
                1u64
            } else {
                0u64
            },
    {
        if self.started {
            1
        } else {
            0
        }
    }

    /// One resumption at time `now`.
    ///
    /// Past the deadline it reports `Done("done")` and touches nothing else.
    /// Before the deadline it refreshes the stored token unless an
    /// equivalent one is already stored, makes sure the single waiting
    /// thread exists, and reports `Pending`.
    pub fn poll_at(&mut self, now: u64, tok: &Token) -> (r: Step)
        ensures
            final(self).deadline() == old(self).deadline(),
            (r is Done <==> now >= old(self).deadline()),
            (r matches Step::Done(s) ==> s@ == "done"@),
            final(self).has_timer_thread() == (old(self).has_timer_thread()
                || now < old(self).deadline()),
    {
        if now >= self.when {
            Step::Done("done".to_owned())
        } else {
            let (stored, handle) = self.pending_token.acquire_write();
            let refreshed: Option<Token> = refreshed_token(stored, tok);
            handle.release_write(refreshed);
            if !self.started {
                self.started = true;
                let cell = arc_dup(&self.pending_token);
                let when: u64 = self.when;
                crate::chan::spawn_detached(
                    move || {
                        wait_for_deadline(when);
                        fire_stored_token(&cell);
                    },
                );
            }
            Step::Pending
        }
    }
}

/// The refresh a pre-deadline resumption applies to the token cell: the
/// result always wakes the current owning task, and the stored token is
/// kept — not replaced by a redundant duplicate — exactly when it would
/// already wake that task.
fn refreshed_token(stored: Option<Token>, tok: &Token) -> (r: Option<Token>)
    ensures
        (r matches Some(t) && t.id() == tok.id()),
        (stored matches Some(p) && p.id() == tok.id()) ==> r == stored,
{
    match &stored {
        Some(prev) => if prev.will_wake(tok) {
            stored
        } else {
            Some(tok.duplicate())
        },
        None => Some(tok.duplicate()),
    }
}

/// Blocks until the wall clock reaches `deadline`.  Returning early would be
/// harmless — an early wake is a spurious wake — but each pass sleeps out
/// the remaining time, so the loop normally runs twice.
pub(crate) fn wait_for_deadline(deadline: u64) {
    let mut fuel: u64 = u64::MAX;
    while fuel > 0
        decreases fuel,
    {
        fuel = fuel - 1;
        let now: u64 = now_ms();
        if now >= deadline {
            return ;
        }
        let remaining: u64 = deadline - now;
        // Nothing ever sends on this channel: receiving with a timeout while
        // the sending half is kept alive is a plain bounded sleep.
        let (_keep_open, alarm): (Sender<()>, Receiver<()>) = channel();
        let _ = alarm.recv_timeout(Duration::from_millis(remaining));
    }
}

/// Takes the token out of the cell and invokes it: the wake is delivered
/// and the token is spent.  Finding none — the delay was dropped unresumed
/// — is a harmless no-op.
fn fire_stored_token(cell: &Arc<RwLock<Option<Token>, TokenCell>>) {
    let (mut stored, handle) = cell.acquire_write();
    let mut taken: Option<Token> = None;
    core::mem::swap(&mut stored, &mut taken);
    handle.release_write(stored);
    match taken {
        Some(t) => t.invoke(),
        None => {},
    }
}

/// A runner and a spawner in one value, for the common case of one thread
/// that first spawns and then runs everything to completion.
pub struct MiniTokio {
    excutor: Excutor,
    spawner: Spawner,
}

impl MiniTokio {
    pub fn new() -> (m: MiniTokio) {
        let (excutor, spawner) = new_excutor_and_spwner();
        MiniTokio { excutor, spawner }
    }

    /// Enqueues a computation for its first resumption.
    pub fn spawn(&self, computation: Computation) -> (r: Result<(), QueueClosed>) {
        self.spawner.spawn(computation)
    }

    /// Resumes tasks until every spawned computation has completed and every
    /// outstanding token is gone.  Consumes the bundled spawner first, so
    /// that the queue can close.
    pub fn run(self) {
        let MiniTokio { excutor, spawner } = self;
        {
            // The bundled spawner goes out of scope here; its queue handle
            // must be gone, or the queue could never close.
            let _owned = spawner;
        }
        excutor.run();
    }
}

/// The notification-style delay: a leaf that simply awaits a one-shot
/// notification which a background thread signals once `duration_ms` have
/// passed.  All token bookkeeping lives in the notification primitive.
pub fn delay(duration_ms: u64) -> (l: Leaf)
    ensures
        (l matches Leaf::Notify(n) && n.duration() == duration_ms),
{
    Leaf::Notify(TimerFuture::new(duration_ms))
}

} // verus!
