//! A sequential model of a test-and-set spin lock.
//!
//! The original device spins on an atomic flag and hands out a guard that
//! dereferences into the protected cell.  Proved here is the protocol the
//! flag enforces: locking flips the flag and moves the value out into the
//! guard, unlocking moves it back and clears the flag, and the value is
//! reachable only through the guard while the flag is set.  Locking an
//! already locked lock would spin forever, so that input is excluded.

use vstd::prelude::*;

verus! {

/// The lock: a flag and, while unlocked, the protected value.
pub struct SpinLock<T> {
    locked: bool,
    data: Option<T>,
}

/// Exclusive access to the protected value while the lock is held.
pub struct SpinLockGuard<T> {
    inner: T,
}

impl<T> View for SpinLockGuard<T> {
    type V = T;

    closed spec fn view(&self) -> T {
        self.inner
    }
}

impl<T> SpinLockGuard<T> {
    /// Reads the protected value.
    pub fn get(&self) -> (r: &T)
        ensures
            *r == self@,
    {
        &self.inner
    }

    /// Replaces the protected value.
    pub fn set(&mut self, v: T)
        ensures
            final(self)@ == v,
    {
        self.inner = v;
    }
}

impl<T> SpinLock<T> {
    /// The flag and the slot agree: the slot is empty exactly while locked.
    pub closed spec fn wf(&self) -> bool {
        self.locked <==> self.data is None
    }

    /// Whether the lock is held.
    pub closed spec fn is_locked(&self) -> bool {
        self.locked
    }

    /// The value in the slot: the protected value, or nothing while a guard
    /// holds it.
    pub closed spec fn stored(&self) -> Option<T> {
        self.data
    }

    /// A fresh, unlocked lock around `data`.
    pub fn new(data: T) -> (s: Self)
        ensures
            s.wf(),
            !s.is_locked(),
            s.stored() == Some(data),
    {
        SpinLock { locked: false, data: Some(data) }
    }

    /// Acquires the lock: sets the flag and moves the protected value into
    /// the guard.  On a lock that is already held this would spin without
    /// end, so it is asked of the caller that the lock is free.
    pub fn lock(&mut self) -> (g: SpinLockGuard<T>)
        requires
            old(self).wf(),
            !old(self).is_locked(),
        ensures
            final(self).wf(),
            final(self).is_locked(),
            Some(g@) == old(self).stored(),
    {
        self.locked = true;
        let mut taken: Option<T> = None;
        core::mem::swap(&mut self.data, &mut taken);
        match taken {
            Some(v) => SpinLockGuard { inner: v },
            None => unreached(),
        }
    }

    /// Releases the lock: moves the (possibly updated) value back into the
    /// slot and clears the flag.
    pub fn unlock(&mut self, g: SpinLockGuard<T>)
        requires
            old(self).wf(),
            old(self).is_locked(),
        ensures
            final(self).wf(),
            !final(self).is_locked(),
            final(self).stored() == Some(g@),
    {
        self.locked = false;
        self.data = Some(g.inner);
    }
}

} // verus!
