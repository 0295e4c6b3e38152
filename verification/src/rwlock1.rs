//! A sequential model of the reader-writer lock with a writer wake counter.
//!
//! The simplest form makes sleeping writers wait on the state word itself,
//! which churns with every reader and keeps waking them for nothing.  This
//! refinement adds a second word, a counter bumped whenever a writer should
//! look again — by the last reader out and by a finishing writer — and
//! sleeping writers wait on that counter instead.  The state word keeps its
//! meaning: 0 free, `n` readers, `u32::MAX` a writer.  Proved here is the
//! protocol of both words.

use vstd::prelude::*;

verus! {

/// Receipt for one held read lock.
pub struct ReadGuard {}

/// Receipt for the held write lock.
pub struct WriteGuard {}

/// The lock: its state word, the writer wake counter, and the value.
pub struct Rwlock<T> {
    state: u32,
    writer_wake_counter: u32,
    value: T,
}

impl<T> Rwlock<T> {
    /// The raw state word: 0 free, `n` readers, `u32::MAX` a writer.
    pub closed spec fn word(&self) -> u32 {
        self.state
    }

    /// The counter sleeping writers wait on; it only ever moves forward
    /// (wrapping), and only when a writer should look at the word again.
    pub closed spec fn wake_count(&self) -> u32 {
        self.writer_wake_counter
    }

    /// Whether a writer holds the lock.
    pub open spec fn is_write_locked(&self) -> bool {
        self.word() == u32::MAX
    }

    /// How many readers hold the lock.
    pub open spec fn readers(&self) -> u32 {
        if self.is_write_locked() {
            0
        } else {
            self.word()
        }
    }

    /// The protected value.
    pub closed spec fn stored(&self) -> T {
        self.value
    }

    /// A fresh, free lock around `val`.
    pub fn new(val: T) -> (s: Self)
        ensures
            s.word() == 0,
            s.wake_count() == 0,
            s.stored() == val,
    {
        Rwlock { state: 0, writer_wake_counter: 0, value: val }
    }

    /// Acquires a read lock: one more reader.  While a writer holds the
    /// lock the caller would sleep, and on too many readers the original
    /// aborts, so both are excluded.
    pub fn read(&mut self) -> (g: ReadGuard)
        requires
            !old(self).is_write_locked(),
            old(self).word() < u32::MAX - 1,
        ensures
            final(self).readers() == old(self).readers() + 1,
            !final(self).is_write_locked(),
            final(self).wake_count() == old(self).wake_count(),
            final(self).stored() == old(self).stored(),
    {
        self.state = self.state + 1;
        ReadGuard {}
    }

    /// Reads the protected value under a read lock.
    pub fn read_ref(&self) -> (r: &T)
        requires
            self.readers() >= 1,
        ensures
            *r == self.stored(),
    {
        &self.value
    }

    /// Releases one read lock.  The last reader out bumps the wake counter
    /// and wakes one sleeping writer.
    pub fn drop_read(&mut self, g: ReadGuard)
        requires
            old(self).readers() >= 1,
            !old(self).is_write_locked(),
        ensures
            final(self).readers() == old(self).readers() - 1,
            !final(self).is_write_locked(),
            final(self).wake_count() == if old(self).readers() == 1 {
                old(self).wake_count().wrapping_add(1)
            } else {
                old(self).wake_count()
            },
            final(self).stored() == old(self).stored(),
    {
        self.state = self.state - 1;
        if self.state == 0 {
            self.writer_wake_counter = self.writer_wake_counter.wrapping_add(1);
        }
    }

    /// Acquires the write lock: the word jumps from 0 to the maximum.
    /// While anybody holds the lock the caller would sleep on the wake
    /// counter, so the lock is asked to be free.
    pub fn write(&mut self) -> (g: WriteGuard)
        requires
            old(self).word() == 0,
        ensures
            final(self).is_write_locked(),
            final(self).wake_count() == old(self).wake_count(),
            final(self).stored() == old(self).stored(),
    {
        self.state = u32::MAX;
        WriteGuard {}
    }

    /// Reads the protected value under the write lock.
    pub fn write_ref(&self) -> (r: &T)
        requires
            self.is_write_locked(),
        ensures
            *r == self.stored(),
    {
        &self.value
    }

    /// Replaces the protected value under the write lock.
    pub fn write_set(&mut self, v: T)
        requires
            old(self).is_write_locked(),
        ensures
            final(self).is_write_locked(),
            final(self).wake_count() == old(self).wake_count(),
            final(self).stored() == v,
    {
        self.value = v;
    }

    /// Releases the write lock: the word returns to 0, the wake counter is
    /// bumped, one sleeping writer and every sleeping reader are then due
    /// to be woken.
    pub fn drop_write(&mut self, g: WriteGuard)
        requires
            old(self).is_write_locked(),
        ensures
            final(self).word() == 0,
            final(self).wake_count() == old(self).wake_count().wrapping_add(1),
            final(self).stored() == old(self).stored(),
    {
        self.state = 0;
        self.writer_wake_counter = self.writer_wake_counter.wrapping_add(1);
    }
}

} // verus!
