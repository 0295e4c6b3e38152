//! A sequential model of a futex-style reader-writer lock, simplest form.
//!
//! The original device keeps one word: 0 when free, `n` while `n` readers
//! hold it, and `u32::MAX` while a writer holds it.  Readers bump the word
//! by one and sleep while it shows a writer; a writer exchanges 0 for the
//! maximum and sleeps on anything else; the last reader out wakes one
//! sleeper and a finishing writer wakes them all.  Proved here is the
//! word's protocol: what each acquisition and release does to the count,
//! and that the value is written only under the write lock.  Acquisitions
//! that would sleep are excluded, as is the reader count the original
//! aborts on.

use vstd::prelude::*;

verus! {

/// Receipt for one held read lock.
pub struct ReadGuard {}

/// Receipt for the held write lock.
pub struct WriteGuard {}

/// The lock: its state word and the protected value.
pub struct Rwlock<T> {
    state: u32,
    value: T,
}

impl<T> Rwlock<T> {
    /// The raw state word: 0 free, `n` readers, `u32::MAX` a writer.
    pub closed spec fn word(&self) -> u32 {
        self.state
    }

    /// Whether a writer holds the lock.
    pub open spec fn is_write_locked(&self) -> bool {
        self.word() == u32::MAX
    }

    /// How many readers hold the lock.
    pub open spec fn readers(&self) -> u32 {
        if self.is_write_locked() {
            0
        } else {
            self.word()
        }
    }

    /// The protected value.
    pub closed spec fn stored(&self) -> T {
        self.value
    }

    /// A fresh, free lock around `val`.
    pub fn new(val: T) -> (s: Self)
        ensures
            s.word() == 0,
            s.stored() == val,
    {
        Rwlock { state: 0, value: val }
    }

    /// Acquires a read lock: one more reader.  While a writer holds the
    /// lock the caller would sleep, and on too many readers the original
    /// aborts, so both are excluded.
    pub fn read(&mut self) -> (g: ReadGuard)
        requires
            !old(self).is_write_locked(),
            old(self).word() < u32::MAX - 1,
        ensures
            final(self).readers() == old(self).readers() + 1,
            !final(self).is_write_locked(),
            final(self).stored() == old(self).stored(),
    {
        self.state = self.state + 1;
        ReadGuard {}
    }

    /// Reads the protected value under a read lock.
    pub fn read_ref(&self) -> (r: &T)
        requires
            self.readers() >= 1,
        ensures
            *r == self.stored(),
    {
        &self.value
    }

    /// Releases one read lock.  The last reader out then wakes one sleeping
    /// writer.
    pub fn drop_read(&mut self, g: ReadGuard)
        requires
            old(self).readers() >= 1,
            !old(self).is_write_locked(),
        ensures
            final(self).readers() == old(self).readers() - 1,
            !final(self).is_write_locked(),
            final(self).stored() == old(self).stored(),
    {
        self.state = self.state - 1;
    }

    /// Acquires the write lock: the word jumps from 0 to the maximum.
    /// While anybody holds the lock the caller would sleep, so the lock is
    /// asked to be free.
    pub fn write(&mut self) -> (g: WriteGuard)
        requires
            old(self).word() == 0,
        ensures
            final(self).is_write_locked(),
            final(self).stored() == old(self).stored(),
    {
        self.state = u32::MAX;
        WriteGuard {}
    }

    /// Reads the protected value under the write lock.
    pub fn write_ref(&self) -> (r: &T)
        requires
            self.is_write_locked(),
        ensures
            *r == self.stored(),
    {
        &self.value
    }

    /// Replaces the protected value under the write lock.
    pub fn write_set(&mut self, v: T)
        requires
            old(self).is_write_locked(),
        ensures
            final(self).is_write_locked(),
            final(self).stored() == v,
    {
        self.value = v;
    }

    /// Releases the write lock: the word returns to 0 and every sleeper is
    /// then due to be woken.
    pub fn drop_write(&mut self, g: WriteGuard)
        requires
            old(self).is_write_locked(),
        ensures
            final(self).word() == 0,
            final(self).stored() == old(self).stored(),
    {
        self.state = 0;
    }
}

} // verus!
