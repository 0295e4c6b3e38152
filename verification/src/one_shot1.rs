//! A sequential model of a one-shot cell split into a sending and a
//! receiving half.
//!
//! The original device hands out, from a borrow of the cell, one `Sender`
//! and one `Receiver`; the sender writes the value, raises the ready flag
//! and unparks the receiving thread, which parks until the flag is up and
//! then takes the value.  The borrow checker makes each half single-use and
//! ties it to that one cell.  Here the halves are single-use receipts tied
//! to the cell by a ghost epoch that `split` renews: a receipt of an older
//! split cannot be replayed against a fresh pair.  The parking itself only
//! blocks against another thread, so receiving is asked to find the value
//! ready.

use vstd::prelude::*;

verus! {

/// The cell: the message, if one is waiting, the ready flag, and the ghost
/// epoch of the last split.
pub struct OneShot<T> {
    message: Option<T>,
    ready: bool,
    epoch: Ghost<nat>,
}

/// The single-use sending half from one split.
pub struct Sender {
    epoch: Ghost<nat>,
}

/// The single-use receiving half from one split.
pub struct Receiver {
    epoch: Ghost<nat>,
}

impl Sender {
    /// The epoch of the split that issued this half.
    pub closed spec fn epoch(&self) -> nat {
        self.epoch@
    }

    /// Stores the one value and raises the ready flag; the receiving thread
    /// is then due to be unparked.  Consuming the half makes a second send
    /// through it impossible.
    pub fn send<T>(self, channel: &mut OneShot<T>, val: T)
        requires
            old(channel).wf(),
            self.epoch() == old(channel).epoch(),
            !old(channel).ready(),
        ensures
            final(channel).wf(),
            final(channel).ready(),
            final(channel).waiting() == Some(val),
            final(channel).epoch() == old(channel).epoch(),
    {
        channel.message = Some(val);
        channel.ready = true;
    }
}

impl Receiver {
    /// The epoch of the split that issued this half.
    pub closed spec fn epoch(&self) -> nat {
        self.epoch@
    }

    /// Whether the value has been sent and still waits.
    pub fn is_ready<T>(&self, channel: &OneShot<T>) -> (b: bool)
        requires
            self.epoch() == channel.epoch(),
        ensures
            b == channel.ready(),
    {
        channel.ready
    }

    /// Takes the value out.  The original parks the thread until the value
    /// is ready, which only another thread could end, so the value is asked
    /// to be ready already.
    pub fn receive<T>(self, channel: &mut OneShot<T>) -> (r: T)
        requires
            old(channel).wf(),
            self.epoch() == old(channel).epoch(),
            old(channel).ready(),
        ensures
            final(channel).wf(),
            !final(channel).ready(),
            Some(r) == old(channel).waiting(),
            final(channel).epoch() == old(channel).epoch(),
    {
        channel.ready = false;
        let mut taken: Option<T> = None;
        core::mem::swap(&mut channel.message, &mut taken);
        match taken {
            Some(v) => v,
            None => unreached(),
        }
    }
}

impl<T> OneShot<T> {
    /// A message is waiting exactly while the flag is up.
    pub closed spec fn wf(&self) -> bool {
        self.ready <==> self.message is Some
    }

    /// Whether a sent value is waiting to be received.
    pub closed spec fn ready(&self) -> bool {
        self.ready
    }

    /// The waiting message, if any.
    pub closed spec fn waiting(&self) -> Option<T> {
        self.message
    }

    /// The ghost epoch of the last split.
    pub closed spec fn epoch(&self) -> nat {
        self.epoch@
    }

    /// A fresh, empty cell.
    pub fn new() -> (c: Self)
        ensures
            c.wf(),
            !c.ready(),
    {
        OneShot { message: None, ready: false, epoch: Ghost(0) }
    }

    /// Resets the cell — any value of an earlier round is dropped — and
    /// hands out a fresh pair of halves.  The epoch moves, so halves of an
    /// earlier split no longer match the cell and cannot be replayed.
    pub fn split(&mut self) -> (r: (Sender, Receiver))
        ensures
            final(self).wf(),
            !final(self).ready(),
            final(self).epoch() == old(self).epoch() + 1,
            r.0.epoch() == final(self).epoch(),
            r.1.epoch() == final(self).epoch(),
    {
        self.message = None;
        self.ready = false;
        let next: Ghost<nat> = Ghost(self.epoch@ + 1);
        self.epoch = next;
        (Sender { epoch: next }, Receiver { epoch: next })
    }
}

} // verus!
