//! The wake protocol of a single task, written out as a state machine and
//! proved.
//!
//! The model tracks, for one task, how many entries for it sit in the ready
//! queue (`queued`), whether a runner currently holds its computation slot
//! (`held`), and whether its computation has reported done (`completed`).
//! The events are exactly the moves of the runtime:
//!
//! - `Wake`: a suspension token for the task is invoked, from any thread —
//!   `Token::invoke` sends the task's index to the queue;
//! - `Take`: a runner dequeues the index and takes the computation out of
//!   the task's slot — the start of `Excutor::resume_task` on a live slot;
//! - `Finish`: the resumption returns, reporting done or pending — the end
//!   of `Excutor::resume_task`;
//! - `SpuriousDequeue`: a runner dequeues the index but finds the slot
//!   retired, and does nothing — `Excutor::resume_task` on a retired slot.
//!
//! `Take` fires only while no other runner holds the slot: in the runtime
//! that exclusion is not a convention but the registry's lock
//! (`vstd::rwlock::RwLock`), which is held for the whole resumption.

use vstd::prelude::*;

verus! {

/// The model state of one task.
pub struct TaskModel {
    /// How many entries for the task the ready queue holds.
    pub queued: nat,
    /// Whether a runner holds the task's computation slot.
    pub held: bool,
    /// Whether the computation has reported done.
    pub completed: bool,
}

/// One move of the runtime, seen from one task.
pub enum TaskEvent {
    Wake,
    Take,
    Finish { done: bool },
    SpuriousDequeue,
}

/// A freshly spawned task: enqueued once, slot free, not completed.
pub open spec fn init() -> TaskModel {
    TaskModel { queued: 1, held: false, completed: false }
}

/// When an event can fire.  A wake can always fire: tokens may be invoked
/// from any thread, any number of times, at any moment.
pub open spec fn enabled(s: TaskModel, e: TaskEvent) -> bool {
    match e {
        TaskEvent::Wake => true,
        TaskEvent::Take => s.queued > 0 && !s.held && !s.completed,
        TaskEvent::Finish { .. } => s.held,
        TaskEvent::SpuriousDequeue => s.queued > 0 && s.completed,
    }
}

/// The state after an event fires.  A wake adds exactly one queue entry;
/// every dequeue consumes exactly one.
pub open spec fn step(s: TaskModel, e: TaskEvent) -> TaskModel {
    match e {
        TaskEvent::Wake => TaskModel { queued: s.queued + 1, ..s },
        TaskEvent::Take => TaskModel { queued: (s.queued - 1) as nat, held: true, ..s },
        TaskEvent::Finish { done } => TaskModel { held: false, completed: done, ..s },
        TaskEvent::SpuriousDequeue => TaskModel { queued: (s.queued - 1) as nat, ..s },
    }
}

/// The protocol invariant: a completed task's slot is never held — its
/// computation was dropped when it completed and is never taken up again.
pub open spec fn inv(s: TaskModel) -> bool {
    s.held ==> !s.completed
}

/// A fresh task satisfies the invariant.
pub proof fn lemma_init_inv()
    ensures
        inv(init()),
{
}

/// Every enabled event preserves the invariant.
pub proof fn lemma_step_preserves_inv(s: TaskModel, e: TaskEvent)
    requires
        inv(s),
        enabled(s, e),
    ensures
        inv(step(s, e)),
{
}

/// Completion terminality: once a task has completed, no enabled event
/// resumes it again — it stays completed and its slot stays free.
pub proof fn lemma_completion_is_terminal(s: TaskModel, e: TaskEvent)
    requires
        inv(s),
        s.completed,
        enabled(s, e),
    ensures
        step(s, e).completed,
        !step(s, e).held,
{
}

/// Idempotent spurious wake: invoking a token after the task has completed,
/// and letting the runner serve that wake, leaves the task exactly where it
/// was.  Both moves are always possible, so the late wake cannot error.
pub proof fn lemma_spurious_wake_is_idempotent(s: TaskModel)
    requires
        inv(s),
        s.completed,
    ensures
        enabled(s, TaskEvent::Wake),
        enabled(step(s, TaskEvent::Wake), TaskEvent::SpuriousDequeue),
        step(step(s, TaskEvent::Wake), TaskEvent::SpuriousDequeue) == s,
{
}

/// No lost wakeup: a wake that arrives while the task is being resumed is
/// recorded as one more queue entry, so when that resumption returns
/// pending, taking the task again is enabled — the wake leads to exactly
/// one more resumption instead of being dropped.
pub proof fn lemma_wake_during_resumption_not_lost(s: TaskModel)
    requires
        inv(s),
        s.held,
    ensures
        enabled(s, TaskEvent::Wake),
        enabled(step(s, TaskEvent::Wake), TaskEvent::Finish { done: false }),
        enabled(
            step(step(s, TaskEvent::Wake), TaskEvent::Finish { done: false }),
            TaskEvent::Take,
        ),
        step(step(s, TaskEvent::Wake), TaskEvent::Finish { done: false }).queued == s.queued
            + 1,
{
}

/// The slot is taken only while nobody holds it: in the runtime this side
/// condition is discharged by the registry lock, which serializes
/// resumptions of a task.
pub proof fn lemma_take_excludes_holder(s: TaskModel)
    ensures
        enabled(s, TaskEvent::Take) ==> !s.held,
{
}

/// The state after a whole sequence of events has fired.
pub open spec fn after_trace(s: TaskModel, evs: Seq<TaskEvent>) -> TaskModel
    decreases evs.len(),
{
    if evs.len() == 0 {
        s
    } else {
        after_trace(step(s, evs[0]), evs.subrange(1, evs.len() as int))
    }
}

/// Whether each event of the sequence is enabled in the state it meets.
pub open spec fn trace_enabled(s: TaskModel, evs: Seq<TaskEvent>) -> bool
    decreases evs.len(),
{
    evs.len() == 0 || (enabled(s, evs[0]) && trace_enabled(
        step(s, evs[0]),
        evs.subrange(1, evs.len() as int),
    ))
}

/// The invariant holds along every enabled sequence of events, however the
/// wakes, resumptions and spurious dequeues interleave.
pub proof fn lemma_inv_along_trace(s: TaskModel, evs: Seq<TaskEvent>)
    requires
        inv(s),
        trace_enabled(s, evs),
    ensures
        inv(after_trace(s, evs)),
    decreases evs.len(),
{
    if evs.len() > 0 {
        lemma_step_preserves_inv(s, evs[0]);
        lemma_inv_along_trace(step(s, evs[0]), evs.subrange(1, evs.len() as int));
    }
}

/// Completion terminality over whole executions: once a task has completed,
/// it stays completed and is never again resumed — its slot is free after
/// every enabled sequence of further events.
pub proof fn lemma_completed_stays_completed(s: TaskModel, evs: Seq<TaskEvent>)
    requires
        inv(s),
        s.completed,
        trace_enabled(s, evs),
    ensures
        after_trace(s, evs).completed,
        !after_trace(s, evs).held,
    decreases evs.len(),
{
    if evs.len() > 0 {
        lemma_completion_is_terminal(s, evs[0]);
        lemma_step_preserves_inv(s, evs[0]);
        lemma_completed_stays_completed(step(s, evs[0]), evs.subrange(1, evs.len() as int));
    }
}

} // verus!
