//! The runner and spawner around one shared ready queue.
//!
//! A spawned computation is given a slot in a shared registry and its slot
//! index is placed on the ready queue.  The runner dequeues indexes and
//! resumes the computation found in the slot; the slot is held exclusively
//! (through the registry's lock) for the whole resumption, so no two
//! threads ever resume the same task at once.  A completed slot is retired
//! and stays retired: a wake arriving afterwards finds it retired and does
//! nothing.  Requeueing is never done by the runner — only by whoever
//! invokes a suspension token.

use crate::chan::arc_dup;
use crate::task::{Computation, Step, Token};
use std::sync::mpsc::{channel, Receiver, Sender};
use std::sync::Arc;
use vstd::prelude::*;
use vstd::rwlock::{RwLock, RwLockPredicate};

verus! {

/// Spawning failed because the ready queue is closed: the runner is gone,
/// so accepting the computation would silently drop work.
#[derive(Debug, PartialEq, Eq)]
pub struct QueueClosed;

/// One task's slot: the computation awaiting its next resumption together
/// with a sending half of the ready queue (kept so that the queue stays
/// open while the task is alive), or the retired state after completion.
enum SlotEntry {
    Ready(Computation, Sender<usize>),
    Retired,
}

/// The predicate of the registry lock: any vector of slots is fine.
pub struct RegistryCell {}

impl RwLockPredicate<Vec<SlotEntry>> for RegistryCell {
    open spec fn inv(self, v: Vec<SlotEntry>) -> bool {
        true
    }
}

/// The consuming half of the runtime: dequeues task indexes and resumes
/// the computations in their slots.
pub struct Excutor {
    registry: Arc<RwLock<Vec<SlotEntry>, RegistryCell>>,
    ready_queue: Receiver<usize>,
}

/// The producing half of the runtime: wraps computations into tasks and
/// enqueues them for their first resumption.
#[derive(Clone)]
pub struct Spawner {
    registry: Arc<RwLock<Vec<SlotEntry>, RegistryCell>>,
    task_sender: Sender<usize>,
}

/// A fresh runtime: a runner and a spawner sharing one registry and one
/// ready queue.
pub fn new_excutor_and_spwner() -> (r: (Excutor, Spawner)) {
    let (task_sender, ready_queue): (Sender<usize>, Receiver<usize>) = channel();
    let registry = Arc::new(RwLock::new(Vec::new(), Ghost(RegistryCell {})));
    let registry2 = arc_dup(&registry);
    (
        Excutor { registry, ready_queue },
        Spawner { registry: registry2, task_sender },
    )
}

impl Spawner {
    /// Takes ownership of a computation, gives it a task slot, and enqueues
    /// it for its first resumption: exactly one enqueue.  The queue is
    /// unbounded, so it cannot saturate; the one failure, surfaced rather
    /// than silently dropping the work, is a closed queue — the runner is
    /// gone and nothing would ever be resumed.
    pub fn spawn(&self, computation: Computation) -> (r: Result<(), QueueClosed>) {
        let (mut entries, handle) = self.registry.acquire_write();
        let id: usize = entries.len();
        entries.push(SlotEntry::Ready(computation, self.task_sender.clone()));
        handle.release_write(entries);
        match self.task_sender.send(id) {
            Ok(_) => Ok(()),
            Err(_) => Err(QueueClosed),
        }
    }

    /// A suspension token for the task with index `task_id`, for handing to
    /// an outside event source.  Spawned tasks get their indexes in spawn
    /// order, starting at zero; a token for an index never spawned, or for a
    /// task already completed, wakes nothing when invoked.
    pub fn waker_for(&self, task_id: usize) -> (t: Token)
        ensures
            t.id() == task_id,
    {
        Token::new(task_id, self.task_sender.clone())
    }
}

impl Excutor {
    /// Blocks on the ready queue and resumes each dequeued task, until the
    /// queue is closed and drained: that is, until every spawner handle,
    /// every live task and every outstanding token is gone.  The fuel
    /// counter exists for the termination check alone; running out of it
    /// would take 2^64 dequeues, which no execution reaches.
    pub fn run(&self) {
        let mut fuel: u64 = u64::MAX;
        while fuel > 0
            decreases fuel,
        {
            fuel = fuel - 1;
            match self.ready_queue.recv() {
                Ok(id) => self.resume_task(id),
                Err(_) => {
                    return ;
                },
            }
        }
    }

    /// One dequeued index: acquire the task's slot and, unless the slot is
    /// already retired (a spurious wake after completion — do nothing),
    /// resume the computation under a fresh token.  A computation that
    /// reports `Pending` goes back into its slot; one that reports `Done`
    /// leaves the slot retired, dropping the computation and the task's
    /// queue handle.
    fn resume_task(&self, id: usize) {
        let now: u64 = crate::chan::now_ms();
        let (mut entries, handle) = self.registry.acquire_write();
        if id < entries.len() {
            let mut entry = SlotEntry::Retired;
            core::mem::swap(&mut entries[id], &mut entry);
            match entry {
                SlotEntry::Ready(computation, requeue) => {
                    let token = Token::new(id, requeue.clone());
                    let (next, step) = computation.resume(now, &token);
                    match step {
                        Step::Pending => {
                            entries[id] = SlotEntry::Ready(next, requeue);
                        },
                        Step::Done(_) => {},
                    }
                },
                SlotEntry::Retired => {},
            }
        }
        handle.release_write(entries);
    }
}

} // verus!
