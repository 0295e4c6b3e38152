//! A sequential model of the write-priority reader-writer lock.
//!
//! To avoid starving writers, this form packs two things into the state
//! word: its lowest bit says that a writer is waiting, the rest counts the
//! readers — so `n` readers make a word of `2 * n`, and `u32::MAX` means a
//! writer holds the lock.  New readers are admitted only while the word is
//! even: once a waiting writer has set the bit, arriving readers sleep
//! instead of overtaking it.  Writers sleep on a separate wake counter,
//! bumped by the last reader out and by a finishing writer.  Proved here is
//! the protocol of both words.

use vstd::prelude::*;

verus! {

/// Receipt for one held read lock.
pub struct ReadGuard {}

/// Receipt for the held write lock.
pub struct WriteGuard {}

/// The lock: its state word, the writer wake counter, and the value.
pub struct Rwlock<T> {
    state: u32,
    writer_wake_counter: u32,
    value: T,
}

impl<T> Rwlock<T> {
    /// The raw state word: `u32::MAX` a writer, otherwise twice the reader
    /// count plus the writer-waiting bit.
    pub closed spec fn word(&self) -> u32 {
        self.state
    }

    /// The counter sleeping writers wait on.
    pub closed spec fn wake_count(&self) -> u32 {
        self.writer_wake_counter
    }

    /// Whether a writer holds the lock.
    pub open spec fn is_write_locked(&self) -> bool {
        self.word() == u32::MAX
    }

    /// Whether a writer has announced itself and blocks new readers.
    pub open spec fn writer_waiting(&self) -> bool {
        !self.is_write_locked() && self.word() % 2 == 1
    }

    /// How many readers hold the lock.
    pub open spec fn readers(&self) -> u32 {
        if self.is_write_locked() {
            0
        } else {
            self.word() / 2
        }
    }

    /// The protected value.
    pub closed spec fn stored(&self) -> T {
        self.value
    }

    /// A fresh, free lock around `val`.
    pub fn new(val: T) -> (s: Self)
        ensures
            s.word() == 0,
            s.wake_count() == 0,
            s.stored() == val,
    {
        Rwlock { state: 0, writer_wake_counter: 0, value: val }
    }

    /// Acquires a read lock: one more reader, the word climbing by two.
    /// While the word is odd — a writer holds the lock or waits for it —
    /// the caller would sleep, and on too many readers the original aborts,
    /// so both are excluded.
    pub fn read(&mut self) -> (g: ReadGuard)
        requires
            !old(self).is_write_locked(),
            !old(self).writer_waiting(),
            old(self).word() < u32::MAX - 2,
        ensures
            final(self).readers() == old(self).readers() + 1,
            !final(self).is_write_locked(),
            !final(self).writer_waiting(),
            final(self).wake_count() == old(self).wake_count(),
            final(self).stored() == old(self).stored(),
    {
        self.state = self.state + 2;
        ReadGuard {}
    }

    /// Reads the protected value under a read lock.
    pub fn read_ref(&self) -> (r: &T)
        requires
            self.readers() >= 1,
        ensures
            *r == self.stored(),
    {
        &self.value
    }

    /// Releases one read lock: the word drops by two.  The last reader out
    /// with a writer waiting — a word of exactly 3 — bumps the wake counter
    /// and wakes one sleeping writer.
    pub fn drop_read(&mut self, g: ReadGuard)
        requires
            old(self).readers() >= 1,
            !old(self).is_write_locked(),
        ensures
            final(self).readers() == old(self).readers() - 1,
            final(self).writer_waiting() == old(self).writer_waiting(),
            !final(self).is_write_locked(),
            final(self).wake_count() == if old(self).word() == 3 {
                old(self).wake_count().wrapping_add(1)
            } else {
                old(self).wake_count()
            },
            final(self).stored() == old(self).stored(),
    {
        let was: u32 = self.state;
        self.state = self.state - 2;
        if was == 3 {
            self.writer_wake_counter = self.writer_wake_counter.wrapping_add(1);
        }
    }

    /// Acquires the write lock: with no readers left — a word of 0, or of 1
    /// when the writer had announced itself — the word jumps to the
    /// maximum.  With readers still in, the caller would set the waiting
    /// bit and sleep, so no readers are asked for.
    pub fn write(&mut self) -> (g: WriteGuard)
        requires
            old(self).readers() == 0,
            !old(self).is_write_locked(),
        ensures
            final(self).is_write_locked(),
            final(self).wake_count() == old(self).wake_count(),
            final(self).stored() == old(self).stored(),
    {
        self.state = u32::MAX;
        WriteGuard {}
    }

    /// Reads the protected value under the write lock.
    pub fn write_ref(&self) -> (r: &T)
        requires
            self.is_write_locked(),
        ensures
            *r == self.stored(),
    {
        &self.value
    }

    /// Replaces the protected value under the write lock.
    pub fn write_set(&mut self, v: T)
        requires
            old(self).is_write_locked(),
        ensures
            final(self).is_write_locked(),
            final(self).wake_count() == old(self).wake_count(),
            final(self).stored() == v,
    {
        self.value = v;
    }

    /// Releases the write lock: the word returns to 0 — clearing any
    /// waiting bit — the wake counter is bumped, one sleeping writer and
    /// every sleeping reader are then due to be woken.
    pub fn drop_write(&mut self, g: WriteGuard)
        requires
            old(self).is_write_locked(),
        ensures
            final(self).word() == 0,
            final(self).wake_count() == old(self).wake_count().wrapping_add(1),
            final(self).stored() == old(self).stored(),
    {
        self.state = 0;
        self.writer_wake_counter = self.writer_wake_counter.wrapping_add(1);
    }
}

} // verus!
