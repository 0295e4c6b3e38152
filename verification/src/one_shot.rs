//! A sequential model of a one-shot value cell.
//!
//! The original device stores one value into an uninitialized cell exactly
//! once and hands it out exactly once, with two flags: `in_use`, set forever
//! by the first send, and `ready`, set by the send and cleared by the
//! receive.  Sending twice or receiving before a send are programming
//! errors and panic there; here those inputs are excluded.  Proved is the
//! flag protocol and that what is received is precisely what was sent.

use vstd::prelude::*;

verus! {

/// The cell: the message, if one is waiting, and the two flags.
pub struct OneShot<T> {
    message: Option<T>,
    ready: bool,
    in_use: bool,
}

impl<T> OneShot<T> {
    /// A message is waiting exactly while `ready` is set.
    pub closed spec fn wf(&self) -> bool {
        self.ready <==> self.message is Some
    }

    /// Whether a sent value is waiting to be received.
    pub closed spec fn ready(&self) -> bool {
        self.ready
    }

    /// Whether a send has ever happened.
    pub closed spec fn used(&self) -> bool {
        self.in_use
    }

    /// The waiting message, if any.
    pub closed spec fn waiting(&self) -> Option<T> {
        self.message
    }

    /// A fresh, empty, never-used cell.
    pub fn new() -> (c: Self)
        ensures
            c.wf(),
            !c.ready(),
            !c.used(),
    {
        OneShot { message: None, ready: false, in_use: false }
    }

    /// Stores the one value.  A second send is a programming error — the
    /// original panics on it — so the cell is asked to be unused.
    pub fn send(&mut self, val: T)
        requires
            old(self).wf(),
            !old(self).used(),
        ensures
            final(self).wf(),
            final(self).used(),
            final(self).ready(),
            final(self).waiting() == Some(val),
    {
        self.in_use = true;
        self.message = Some(val);
        self.ready = true;
    }

    /// Takes the value out.  Receiving while nothing is ready is a
    /// programming error — the original panics on it — so a waiting value
    /// is asked for.
    pub fn receive(&mut self) -> (r: T)
        requires
            old(self).wf(),
            old(self).ready(),
        ensures
            final(self).wf(),
            !final(self).ready(),
            final(self).used() == old(self).used(),
            Some(r) == old(self).waiting(),
    {
        self.ready = false;
        let mut taken: Option<T> = None;
        core::mem::swap(&mut self.message, &mut taken);
        match taken {
            Some(v) => v,
            None => unreached(),
        }
    }

    /// Whether a value is ready to be received.
    pub fn is_ready(&self) -> (b: bool)
        ensures
            b == self.ready(),
    {
        self.ready
    }
}

} // verus!
