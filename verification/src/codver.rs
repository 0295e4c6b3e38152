//! A sequential model of a futex-style condition variable.
//!
//! The original device keeps two words: a notification counter that waiters
//! sleep on, and a count of the waiters themselves.  A notification bumps
//! the counter and issues a wake only while somebody waits, sparing the
//! system call otherwise.  Proved here is the protocol of the two words for
//! the notifying side.  The waiting side — release the mutex, sleep on the
//! counter, retake the mutex — exists only to block against other threads,
//! which a sequential model cannot hold, so it is not modeled.

use vstd::prelude::*;

verus! {

/// The condition variable: its notification counter and its waiter count.
pub struct Codvar {
    counter: u32,
    num_waiters: u32,
}

impl Codvar {
    /// The notification counter waiters sleep on; it moves forward
    /// (wrapping) with each delivered notification.
    pub closed spec fn count(&self) -> u32 {
        self.counter
    }

    /// How many threads are waiting.
    pub closed spec fn waiters(&self) -> u32 {
        self.num_waiters
    }

    /// A fresh condition variable: nothing notified, nobody waiting.
    pub fn new() -> (c: Self)
        ensures
            c.count() == 0,
            c.waiters() == 0,
    {
        Codvar { counter: 0, num_waiters: 0 }
    }

    /// The notification counter as it stands.
    pub fn counter_value(&self) -> (n: u32)
        ensures
            n == self.count(),
    {
        self.counter
    }

    /// How many threads are waiting right now.
    pub fn waiting_now(&self) -> (n: u32)
        ensures
            n == self.waiters(),
    {
        self.num_waiters
    }

    /// Notifies one waiter: with somebody waiting, the counter moves and
    /// one sleeper is due to be woken; with nobody waiting, nothing at all
    /// happens — the wake is spared.
    pub fn notify_one(&mut self)
        ensures
            final(self).waiters() == old(self).waiters(),
            final(self).count() == if old(self).waiters() > 0 {
                old(self).count().wrapping_add(1)
            } else {
                old(self).count()
            },
    {
        if self.num_waiters > 0 {
            self.counter = self.counter.wrapping_add(1);
        }
    }

    /// Notifies every waiter: as `notify_one`, but all sleepers are due to
    /// be woken.
    pub fn notify_all(&mut self)
        ensures
            final(self).waiters() == old(self).waiters(),
            final(self).count() == if old(self).waiters() > 0 {
                old(self).count().wrapping_add(1)
            } else {
                old(self).count()
            },
    {
        if self.num_waiters > 0 {
            self.counter = self.counter.wrapping_add(1);
        }
    }
}

} // verus!
