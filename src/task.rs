//! Task identifiers, wake handles and the ready queue they feed.

use crate::queue::{
    id_queue_cap, id_queue_capacity, id_queue_items, id_queue_len, id_queue_new, id_queue_pop,
    id_queue_push,
};
use crossbeam_queue::ArrayQueue;
use vstd::prelude::*;

verus! {

/// Number of identifiers the ready queue holds: the admission ceiling for
/// spawned and woken tasks.
pub const READY_QUEUE_CAPACITY: usize = 100;

/// A process-wide unique task identifier.
#[derive(Clone, Copy, Debug, PartialEq, Eq, Structural, PartialOrd, Ord, Hash)]
pub struct TaskId {
    pub id: u64,
}

impl TaskId {
    /// The raw integer behind the identifier.
    pub fn as_u64(&self) -> (r: u64)
        ensures
            r == self.id,
    {
        self.id
    }
}

/// What a task reports after being resumed.
#[derive(Clone, Copy, Debug, PartialEq, Eq, Structural)]
pub enum TaskPoll {
    /// The task is still incomplete; it will run again once woken.
    Pending,
    /// The task has finished and is to be removed.
    Ready,
}

/// A resumable unit of cooperative work. `E` is whatever the task reads and
/// writes while running (an event bridge, an output buffer, ...).
pub trait Task<E> {
    /// Runs until finished or blocked; `waker` wakes it again.
    fn poll(&mut self, waker: &WakeHandle, env: &mut E) -> TaskPoll;
}

/// Bounded FIFO of identifiers of tasks that are ready to run.
pub struct ReadyQueue {
    queue: ArrayQueue<u64>,
}

impl View for ReadyQueue {
    type V = Seq<u64>;

    closed spec fn view(&self) -> Seq<u64> {
        id_queue_items(self.queue)
    }
}

impl ReadyQueue {
    /// The number of identifiers the queue can hold.
    pub closed spec fn capacity_spec(&self) -> nat {
        id_queue_capacity(self.queue)
    }

    /// The queue is within its capacity.
    pub closed spec fn wf(&self) -> bool {
        self@.len() <= self.capacity_spec()
    }

    pub open spec fn is_full_spec(&self) -> bool {
        self@.len() >= self.capacity_spec()
    }

    /// An empty ready queue with the default capacity.
    pub fn new() -> (q: ReadyQueue)
        ensures
            q.wf(),
            q@ == Seq::<u64>::empty(),
            q.capacity_spec() == READY_QUEUE_CAPACITY,
    {
        ReadyQueue::with_capacity(READY_QUEUE_CAPACITY)
    }

    /// An empty ready queue holding at most `cap` identifiers.
    pub fn with_capacity(cap: usize) -> (q: ReadyQueue)
        requires
            0 < cap <= 0x1_0000,
        ensures
            q.wf(),
            q@ == Seq::<u64>::empty(),
            q.capacity_spec() == cap,
    {
        ReadyQueue { queue: id_queue_new(cap) }
    }

    /// Number of identifiers waiting.
    pub fn len(&self) -> (r: usize)
        ensures
            r == self@.len(),
    {
        id_queue_len(&self.queue)
    }

    pub fn is_empty(&self) -> (r: bool)
        ensures
            r == (self@.len() == 0),
    {
        id_queue_len(&self.queue) == 0
    }

    /// Whether another identifier would be refused.
    pub fn is_full(&self) -> (r: bool)
        requires
            self.wf(),
        ensures
            r == self.is_full_spec(),
    {
        proof {
            assert(self@.len() <= self.capacity_spec());
        }
        id_queue_len(&self.queue) == self.capacity()
    }

    pub fn capacity(&self) -> (r: usize)
        requires
            self.wf(),
        ensures
            r == self.capacity_spec(),
    {
        id_queue_cap(&self.queue)
    }

    /// Appends `id` at the back. A full queue is a fatal admission failure,
    /// so callers must not push into one.
    pub fn push(&mut self, id: TaskId)
        requires
            old(self).wf(),
            !old(self).is_full_spec(),
        ensures
            final(self).wf(),
            final(self)@ == old(self)@.push(id.id),
            final(self).capacity_spec() == old(self).capacity_spec(),
    {
        let _ = id_queue_push(&mut self.queue, id.id);
    }

    /// Removes and returns the identifier at the front, if any.
    pub fn pop(&mut self) -> (r: Option<TaskId>)
        requires
            old(self).wf(),
        ensures
            final(self).wf(),
            final(self).capacity_spec() == old(self).capacity_spec(),
            old(self)@.len() == 0 ==> r is None && final(self)@ == old(self)@,
            old(self)@.len() > 0 ==> r == Some(TaskId { id: old(self)@[0] }) && final(self)@
                == old(self)@.drop_first(),
    {
        match id_queue_pop(&mut self.queue) {
            Some(id) => Some(TaskId { id }),
            None => None,
        }
    }
}

/// A trigger bound to one task: invoking it puts the task's identifier back
/// on the ready queue.
#[derive(Clone, Copy, Debug, PartialEq, Eq, Structural)]
pub struct WakeHandle {
    pub task_id: TaskId,
}

impl WakeHandle {
    /// A handle that wakes the task `task_id`.
    pub fn new(task_id: TaskId) -> (w: WakeHandle)
        ensures
            w.task_id == task_id,
    {
        WakeHandle { task_id }
    }

    /// Re-enqueues the bound task. A full ready queue is fatal, so callers
    /// must not wake into one.
    pub fn wake(&self, queue: &mut ReadyQueue)
        requires
            old(queue).wf(),
            !old(queue).is_full_spec(),
        ensures
            final(queue).wf(),
            final(queue)@ == old(queue)@.push(self.task_id.id),
            final(queue).capacity_spec() == old(queue).capacity_spec(),
    {
        queue.push(self.task_id);
    }
}

} // verus!
