//! The suspendable-computation interface of the runtime: the `Step` a
//! computation reports when resumed, the suspension `Token` it may store to
//! request another resumption, and the concrete computations the runtime
//! ships with.
//!
//! A computation must be safe to resume repeatedly until it reports
//! `Step::Done`, and is never resumed again afterwards; the runner upholds
//! the second half by retiring a task's slot on completion.

use crate::excutor2::Delay;
use crate::timer_future::TimerFuture;
use std::sync::mpsc::Sender;
use vstd::prelude::*;

verus! {

/// What a computation reports when resumed: finished, with its result, or
/// not yet able to progress.
pub enum Step {
    Done(String),
    Pending,
}

/// A capability to schedule the owning task for another resumption.
///
/// Invoking it places the task's id back on the ready queue.  It may be
/// invoked from any thread, any number of times; invoking it after the task
/// has completed is a harmless no-op, because the runner finds the task's
/// slot retired and does nothing.  Two tokens are equivalent when they would
/// wake the same task.
pub struct Token {
    task_id: usize,
    queue: Sender<usize>,
}

impl Token {
    /// The id of the task this token resumes.
    pub closed spec fn id(&self) -> usize {
        self.task_id
    }

    /// A token that re-enqueues task `task_id` on the queue behind `queue`.
    pub fn new(task_id: usize, queue: Sender<usize>) -> (t: Token)
        ensures
            t.id() == task_id,
    {
        Token { task_id, queue }
    }

    /// True exactly when the two tokens resume the same task, so that a
    /// computation holding one need not replace it with the other.
    pub fn will_wake(&self, other: &Token) -> (r: bool)
        ensures
            r == (self.id() == other.id()),
    {
        self.task_id == other.task_id
    }

    /// Requests a resumption of the owning task.  If the runner is already
    /// gone the request has nobody to serve it and is dropped; a wake can
    /// then no longer matter.
    pub fn invoke(&self) {
        let _ = self.queue.send(self.task_id);
    }

    /// An equivalent token for the same task.
    pub fn duplicate(&self) -> (t: Token)
        ensures
            t.id() == self.id(),
    {
        Token { task_id: self.task_id, queue: self.queue.clone() }
    }
}

/// A computation that asks to be resumed again `rounds` more times before
/// completing.  It invokes its own token first and only then reports
/// `Pending`, so every resumption exercises the wake-while-running path: the
/// task is back on the queue before the runner has put it back in its slot.
pub struct Yielder {
    remaining: u64,
}

impl Yielder {
    /// How many more times it will yield before completing.
    pub closed spec fn rounds_left(&self) -> u64 {
        self.remaining
    }

    pub fn new(rounds: u64) -> (y: Yielder)
        ensures
            y.rounds_left() == rounds,
    {
        Yielder { remaining: rounds }
    }

    /// One resumption: wake-then-yield while rounds remain, `Done` after.
    pub fn resume_step(&mut self, tok: &Token) -> (r: Step)
        ensures
            old(self).rounds_left() == 0 ==> r is Done && final(self).rounds_left() == 0,
            old(self).rounds_left() > 0 ==> r is Pending && final(self).rounds_left()
                == old(self).rounds_left() - 1,
            (r matches Step::Done(s) ==> s@ == "done"@),
    {
        if self.remaining == 0 {
            Step::Done("done".to_owned())
        } else {
            tok.invoke();
            self.remaining = self.remaining - 1;
            Step::Pending
        }
    }
}

/// A leaf computation: one with no sub-computations, interfacing directly
/// with its event source (a timer thread, or nothing at all).
pub enum Leaf {
    /// Completes once its deadline passes; wakes itself through a stored
    /// token from a background timer thread.
    Timer(Delay),
    /// Completes once a one-shot notification fires; the notification holds
    /// the token bookkeeping.
    Notify(TimerFuture),
    /// Yields a fixed number of times, waking itself synchronously.
    Yield(Yielder),
}

/// How one resumption at time `now` relates a leaf to its successor and to
/// the step it reported.  For the timer and the yielder this pins the
/// outcome exactly.  For the notification leaf the leaf value is untouched
/// and a done result is empty; whether it is done depends on whether the
/// background thread has signalled yet, which no relation over the two leaf
/// values alone can decide — that outcome table is pinned by the verified
/// transition the notification's poll applies to the shared cell.
pub open spec fn leaf_rel(pre: Leaf, post: Leaf, now: u64, r: Step) -> bool {
    match pre {
        Leaf::Timer(d) => {
            &&& post matches Leaf::Timer(d2) && d2.deadline() == d.deadline()
                && d2.has_timer_thread() == (d.has_timer_thread() || now < d.deadline())
            &&& (r is Done <==> now >= d.deadline())
            &&& ((r matches Step::Done(s) ==> s@ == "done"@))
        },
        Leaf::Notify(n) => {
            &&& post matches Leaf::Notify(n2) && n2 == n
            &&& (r matches Step::Done(s) ==> s@ == Seq::<char>::empty())
        },
        Leaf::Yield(y) => {
            &&& post matches Leaf::Yield(y2) && (if y.rounds_left() == 0 {
                y2.rounds_left() == 0
            } else {
                y2.rounds_left() == y.rounds_left() - 1
            })
            &&& (r is Done <==> y.rounds_left() == 0)
            &&& ((r matches Step::Done(s) ==> s@ == "done"@))
        },
    }
}

impl Leaf {
    /// One resumption of the leaf at time `now`, under token `tok`.
    pub fn resume(self, now: u64, tok: &Token) -> (r: (Leaf, Step))
        ensures
            leaf_rel(self, r.0, now, r.1),
    {
        match self {
            Leaf::Timer(mut d) => {
                let step = d.poll_at(now, tok);
                (Leaf::Timer(d), step)
            },
            Leaf::Notify(n) => {
                let step = n.poll(tok);
                (Leaf::Notify(n), step)
            },
            Leaf::Yield(mut y) => {
                let step = y.resume_step(tok);
                (Leaf::Yield(y), step)
            },
        }
    }
}

/// A leaf that additionally reports its completion: when the inner leaf
/// finishes, the tag and the result are sent on the `results` channel, once.
pub struct Reporter {
    tag: u64,
    results: Sender<(u64, String)>,
    inner: Leaf,
}

impl Reporter {
    /// The tag under which completion is reported.
    pub closed spec fn tag(&self) -> u64 {
        self.tag
    }

    /// The wrapped leaf computation.
    pub closed spec fn inner(&self) -> Leaf {
        self.inner
    }

    pub fn new(tag: u64, results: Sender<(u64, String)>, inner: Leaf) -> (rp: Reporter)
        ensures
            rp.tag() == tag,
            rp.inner() == inner,
    {
        Reporter { tag, results, inner }
    }

    /// Resumes the inner leaf; on its completion, sends `(tag, result)`.
    pub fn resume(self, now: u64, tok: &Token) -> (r: (Reporter, Step))
        ensures
            r.0.tag() == self.tag(),
            leaf_rel(self.inner(), r.0.inner(), now, r.1),
    {
        let Reporter { tag, results, inner } = self;
        let (inner2, step) = inner.resume(now, tok);
        match &step {
            Step::Done(s) => {
                let _ = results.send((tag, s.clone()));
            },
            Step::Pending => {},
        }
        (Reporter { tag, results, inner: inner2 }, step)
    }
}

/// Any computation the runtime can own: a bare leaf, or a leaf composed
/// with completion reporting.
pub enum Computation {
    Plain(Leaf),
    Report(Reporter),
}

/// How one resumption at time `now` relates a computation to its successor
/// and the reported step: the composition is preserved and the underlying
/// leaf moves by `leaf_rel`.
pub open spec fn resume_rel(pre: Computation, post: Computation, now: u64, r: Step) -> bool {
    match pre {
        Computation::Plain(l) => post matches Computation::Plain(l2) && leaf_rel(l, l2, now, r),
        Computation::Report(rp) => post matches Computation::Report(rp2) && rp2.tag() == rp.tag()
            && leaf_rel(rp.inner(), rp2.inner(), now, r),
    }
}

impl Computation {
    /// One resumption at time `now`, under token `tok`: the successor
    /// computation and the step it reported.
    pub fn resume(self, now: u64, tok: &Token) -> (r: (Computation, Step))
        ensures
            resume_rel(self, r.0, now, r.1),
    {
        match self {
            Computation::Plain(l) => {
                let (l2, step) = l.resume(now, tok);
                (Computation::Plain(l2), step)
            },
            Computation::Report(rp) => {
                let (rp2, step) = rp.resume(now, tok);
                (Computation::Report(rp2), step)
            },
        }
    }
}

} // verus!
