//! A sequential model of a futex-style mutex with a two-value state word.
//!
//! The original device keeps a word that is 0 when unlocked and 1 when
//! locked; a locker swaps 1 in and sleeps while the old value was 1, and an
//! unlocker stores 0 and wakes one sleeper — on every unlock, whether or
//! not anybody waits.  Proved here is the word's protocol and the exclusive
//! hand-over of the protected value through the guard; the sleeping itself
//! is a kernel service with no observable effect on the word.

use vstd::prelude::*;

verus! {

/// The mutex: its state word and, while unlocked, the protected value.
pub struct Mutex<T> {
    locked: u32,
    data: Option<T>,
}

/// Exclusive access to the protected value while the mutex is held.
pub struct MutexGuard<T> {
    inner: T,
}

impl<T> View for MutexGuard<T> {
    type V = T;

    closed spec fn view(&self) -> T {
        self.inner
    }
}

impl<T> MutexGuard<T> {
    /// Reads the protected value.
    pub fn get(&self) -> (r: &T)
        ensures
            *r == self@,
    {
        &self.inner
    }

    /// Replaces the protected value.
    pub fn set(&mut self, v: T)
        ensures
            final(self)@ == v,
    {
        self.inner = v;
    }
}

impl<T> Mutex<T> {
    /// The state word: 0 unlocked, 1 locked.
    pub closed spec fn word(&self) -> u32 {
        self.locked
    }

    /// The word stays in range and the slot is empty exactly while locked.
    pub closed spec fn wf(&self) -> bool {
        &&& self.locked <= 1
        &&& (self.locked == 1 <==> self.data is None)
    }

    /// The value in the slot: the protected value, or nothing while a guard
    /// holds it.
    pub closed spec fn stored(&self) -> Option<T> {
        self.data
    }

    /// A fresh, unlocked mutex around `data`.
    pub fn new(data: T) -> (m: Self)
        ensures
            m.wf(),
            m.word() == 0,
            m.stored() == Some(data),
    {
        Mutex { locked: 0, data: Some(data) }
    }

    /// Acquires the mutex: the word goes 0 to 1 and the protected value
    /// moves into the guard.  On a held mutex the caller would be put to
    /// sleep until the holder unlocks, so the lock is asked to be free.
    pub fn lock(&mut self) -> (g: MutexGuard<T>)
        requires
            old(self).wf(),
            old(self).word() == 0,
        ensures
            final(self).wf(),
            final(self).word() == 1,
            Some(g@) == old(self).stored(),
    {
        self.locked = 1;
        let mut taken: Option<T> = None;
        core::mem::swap(&mut self.data, &mut taken);
        match taken {
            Some(v) => MutexGuard { inner: v },
            None => unreached(),
        }
    }

    /// Releases the mutex: the value returns to the slot and the word goes
    /// back to 0.  One sleeper, if any, is then due to be woken.
    pub fn unlock(&mut self, g: MutexGuard<T>)
        requires
            old(self).wf(),
            old(self).word() == 1,
        ensures
            final(self).wf(),
            final(self).word() == 0,
            final(self).stored() == Some(g@),
    {
        self.locked = 0;
        self.data = Some(g.inner);
    }
}

} // verus!
