//! The single-threaded cooperative executor: a table of live tasks, fed by
//! the ready queue, with a lazily filled cache of wake handles.

use crate::task::{ReadyQueue, Task, TaskId, TaskPoll, WakeHandle};
use std::collections::BTreeMap;
use vstd::prelude::*;

verus! {

broadcast use vstd::std_specs::btree::group_btree_axioms;

/// What one resumption step of the executor did.
#[derive(Clone, Copy, Debug, PartialEq, Eq, Structural)]
pub enum Resumption {
    /// The identifier at the front named no live task; it was dropped.
    Skipped(TaskId),
    /// The task ran and reported that it is still incomplete.
    Suspended(TaskId),
    /// The task ran to completion and was removed.
    Completed(TaskId),
}

/// What the idle check decided.
#[derive(Clone, Copy, Debug, PartialEq, Eq, Structural)]
pub enum IdleAction {
    /// Nothing is ready: halt until the next interrupt.
    Halt,
    /// Work arrived during the check: re-enable interrupts and go on.
    Resume,
}

/// The set of live task identifiers after a resumption step.
pub open spec fn live_after(live: Set<u64>, r: Resumption) -> Set<u64> {
    match r {
        Resumption::Completed(t) => live.remove(t.id),
        _ => live,
    }
}

/// The identifier a resumption step took off the ready queue.
pub open spec fn resumption_id(r: Resumption) -> u64 {
    match r {
        Resumption::Skipped(t) => t.id,
        Resumption::Suspended(t) => t.id,
        Resumption::Completed(t) => t.id,
    }
}

/// The live identifiers after a sequence of resumption steps.
pub open spec fn live_after_all(live: Set<u64>, rs: Seq<Resumption>) -> Set<u64>
    decreases rs.len(),
{
    if rs.len() == 0 {
        live
    } else {
        live_after(live_after_all(live, rs.drop_last()), rs.last())
    }
}

/// The wake-handle cache after a resumption step: a suspended task keeps
/// (or gets) the handle bound to it, a completed one loses it.
pub open spec fn wakers_after(w: Map<u64, WakeHandle>, r: Resumption) -> Map<u64, WakeHandle> {
    match r {
        Resumption::Completed(t) => w.remove(t.id),
        Resumption::Suspended(t) => w.insert(t.id, WakeHandle { task_id: t }),
        Resumption::Skipped(_) => w,
    }
}

/// The wake-handle cache after a sequence of resumption steps.
pub open spec fn wakers_after_all(w: Map<u64, WakeHandle>, rs: Seq<Resumption>) -> Map<
    u64,
    WakeHandle,
>
    decreases rs.len(),
{
    if rs.len() == 0 {
        w
    } else {
        wakers_after(wakers_after_all(w, rs.drop_last()), rs.last())
    }
}

/// The idle decision on a ready queue with contents `q`.
pub open spec fn idle_decision(q: Seq<u64>) -> IdleAction {
    if q.len() == 0 {
        IdleAction::Halt
    } else {
        IdleAction::Resume
    }
}

/// The table of live tasks, keyed by identifier, with the wake handles
/// created for them and the counter that hands out identifiers.
pub struct Executor<T> {
    tasks: BTreeMap<u64, T>,
    waker_cache: BTreeMap<u64, WakeHandle>,
    next_id: u64,
}

impl<T> Executor<T> {
    /// Live tasks, by identifier.
    pub closed spec fn tasks(&self) -> Map<u64, T> {
        self.tasks@
    }

    /// Cached wake handles, by identifier.
    pub closed spec fn wakers(&self) -> Map<u64, WakeHandle> {
        self.waker_cache@
    }

    /// The identifier the next spawned task receives.
    pub closed spec fn next_id(&self) -> u64 {
        self.next_id
    }

    /// Every live identifier was handed out before, and every cached wake
    /// handle belongs to a live task and is bound to that task.
    pub open spec fn wf(&self) -> bool {
        &&& forall|k: u64| #[trigger] self.tasks().contains_key(k) ==> k < self.next_id()
        &&& forall|k: u64| #[trigger]
            self.wakers().contains_key(k) ==> self.tasks().contains_key(k)
                && self.wakers()[k].task_id.id == k
    }

    /// An executor with no tasks.
    pub fn new() -> (e: Executor<T>)
        ensures
            e.wf(),
            e.tasks() == Map::<u64, T>::empty(),
            e.wakers() == Map::<u64, WakeHandle>::empty(),
            e.next_id() == 0,
    {
        Executor { tasks: BTreeMap::new(), waker_cache: BTreeMap::new(), next_id: 0 }
    }

    /// Whether the identifier counter is used up (spawning is then fatal).
    pub fn ids_exhausted(&self) -> (r: bool)
        ensures
            r == (self.next_id() == u64::MAX),
    {
        self.next_id == u64::MAX
    }

    /// Number of live tasks.
    pub fn task_count(&self) -> (r: usize)
        ensures
            r == self.tasks().len(),
    {
        self.tasks.len()
    }

    /// Whether `id` names a live task.
    pub fn contains(&self, id: TaskId) -> (r: bool)
        ensures
            r == self.tasks().contains_key(id.id),
    {
        broadcast use vstd::laws_cmp::group_laws_cmp;
        self.tasks.contains_key(&id.id)
    }

    /// Adds `task` under a fresh identifier and puts that identifier on the
    /// ready queue. A full queue and an exhausted counter are fatal, so
    /// callers must rule both out.
    pub fn spawn(&mut self, task: T, queue: &mut ReadyQueue) -> (id: TaskId)
        requires
            old(self).wf(),
            old(self).next_id() < u64::MAX,
            old(queue).wf(),
            !old(queue).is_full_spec(),
        ensures
            final(self).wf(),
            id.id == old(self).next_id(),
            !old(self).tasks().contains_key(id.id),
            final(self).tasks() == old(self).tasks().insert(id.id, task),
            final(self).wakers() == old(self).wakers(),
            final(self).next_id() == old(self).next_id() + 1,
            final(queue).wf(),
            final(queue)@ == old(queue)@.push(id.id),
            final(queue).capacity_spec() == old(queue).capacity_spec(),
    {
        broadcast use vstd::laws_cmp::group_laws_cmp;
        let id = TaskId { id: self.next_id };
        self.next_id = self.next_id + 1;
        let _ = self.tasks.insert(id.id, task);
        proof {
            assert forall|k: u64| #[trigger] self.tasks().contains_key(k) implies k
                < self.next_id() by {
                if k != id.id {
                    assert(old(self).tasks().contains_key(k));
                }
            }
            assert forall|k: u64| #[trigger] self.wakers().contains_key(k) implies self.tasks().contains_key(k)
                && self.wakers()[k].task_id.id == k by {
                assert(old(self).wakers().contains_key(k));
                assert(old(self).tasks().contains_key(k));
            }
        }
        queue.push(id);
        id
    }

    /// Takes the identifier at the front of the ready queue, if any, and
    /// resumes that task when it is still live, with its cached wake handle
    /// (created on first use). A task that reports completion is removed
    /// together with its wake handle.
    pub fn run_next<E>(&mut self, queue: &mut ReadyQueue, env: &mut E) -> (r: Option<Resumption>) where
        T: Task<E>,

        requires
            old(self).wf(),
            old(queue).wf(),
        ensures
            final(self).wf(),
            final(queue).wf(),
            final(queue).capacity_spec() == old(queue).capacity_spec(),
            final(self).next_id() == old(self).next_id(),
            old(queue)@.len() == 0 ==> {
                &&& r is None
                &&& final(queue)@ == old(queue)@
                &&& final(self).tasks() == old(self).tasks()
                &&& final(self).wakers() == old(self).wakers()
            },
            old(queue)@.len() > 0 ==> {
                let id = old(queue)@[0];
                &&& final(queue)@ == old(queue)@.drop_first()
                &&& r is Some
                &&& final(self).tasks().dom() == live_after(old(self).tasks().dom(), r->0)
                &&& final(self).tasks().remove(id) == old(self).tasks().remove(id)
                &&& !old(self).tasks().contains_key(id) ==> r == Some(
                    Resumption::Skipped(TaskId { id }),
                ) && final(self).wakers() == old(self).wakers()
                &&& old(self).tasks().contains_key(id) ==> match r->0 {
                    Resumption::Completed(t) => t.id == id && final(self).wakers() == old(
                        self,
                    ).wakers().remove(id),
                    Resumption::Suspended(t) => t.id == id && final(self).wakers() == old(
                        self,
                    ).wakers().insert(id, WakeHandle { task_id: t }),
                    Resumption::Skipped(_) => false,
                }
            },
    {
        broadcast use vstd::laws_cmp::group_laws_cmp;
        let task_id = match queue.pop() {
            Some(t) => t,
            None => return None,
        };
        let key = task_id.id;
        match self.tasks.remove(&key) {
            None => {
                proof {
                    assert(self.tasks@ =~= old(self).tasks@);
                    assert(self.tasks() == old(self).tasks());
                    assert(self.wakers() == old(self).wakers());
                    assert(self.wf());
                }
                Some(Resumption::Skipped(task_id))
            },
            Some(mut task) => {
                let waker = match self.waker_cache.get(&key) {
                    Some(w) => *w,
                    None => {
                        let w = WakeHandle::new(task_id);
                        let _ = self.waker_cache.insert(key, w);
                        w
                    },
                };
                proof {
                    assert(self.waker_cache@ =~= old(self).waker_cache@.insert(key, waker));
                }
                match task.poll(&waker, env) {
                    TaskPoll::Ready => {
                        let _ = self.waker_cache.remove(&key);
                        proof {
                            assert(self.waker_cache@ =~= old(self).waker_cache@.remove(key));
                            assert(self.tasks@ =~= old(self).tasks@.remove(key));
                            assert forall|k: u64| #[trigger] self.tasks().contains_key(k) implies k
                                < self.next_id() by {
                                assert(old(self).tasks().contains_key(k));
                            }
                            assert forall|k: u64| #[trigger] self.wakers().contains_key(k) implies self.tasks().contains_key(k)
                                && self.wakers()[k].task_id.id == k by {
                                assert(old(self).wakers().contains_key(k));
                            }
                        }
                        Some(Resumption::Completed(task_id))
                    },
                    TaskPoll::Pending => {
                        let _ = self.tasks.insert(key, task);
                        proof {
                            assert(self.tasks@.dom() =~= old(self).tasks@.dom());
                            assert forall|k: u64| #[trigger] self.tasks().contains_key(k) implies k
                                < self.next_id() by {
                                assert(old(self).tasks().contains_key(k));
                            }
                            assert forall|k: u64| #[trigger] self.wakers().contains_key(k) implies self.tasks().contains_key(k)
                                && self.wakers()[k].task_id.id == k by {
                                if k != key {
                                    assert(old(self).wakers().contains_key(k));
                                }
                            }
                            assert(self.tasks@.remove(key) =~= old(self).tasks@.remove(key));
                        }
                        Some(Resumption::Suspended(task_id))
                    },
                }
            },
        }
    }

    /// Drains the ready queue, resuming each live task it names, and returns
    /// what happened at each identifier, in queue order: an identifier that
    /// names no live task at its turn is skipped; a live task is resumed with
    /// its own wake handle and is removed, with that handle, when it reports
    /// completion. Tasks whose identifiers were not queued are left exactly as
    /// they were: a task that has not been woken does not run.
    pub fn run_ready_tasks<E>(&mut self, queue: &mut ReadyQueue, env: &mut E) -> (r: Vec<
        Resumption,
    >) where T: Task<E>
        requires
            old(self).wf(),
            old(queue).wf(),
        ensures
            final(self).wf(),
            final(queue).wf(),
            final(queue)@.len() == 0,
            final(queue).capacity_spec() == old(queue).capacity_spec(),
            final(self).next_id() == old(self).next_id(),
            r@.len() == old(queue)@.len(),
            forall|i: int| 0 <= i < r@.len() ==> resumption_id(#[trigger] r@[i]) == old(queue)@[i],
            forall|i: int|
                0 <= i < r@.len() ==> ((#[trigger] r@[i] is Skipped) <==> !live_after_all(
                    old(self).tasks().dom(),
                    r@.take(i),
                ).contains(old(queue)@[i])),
            final(self).tasks().dom() == live_after_all(old(self).tasks().dom(), r@),
            final(self).wakers() == wakers_after_all(old(self).wakers(), r@),
            final(self).tasks().dom().subset_of(old(self).tasks().dom()),
            forall|k: u64|
                old(self).tasks().contains_key(k) && !old(queue)@.contains(k) ==> {
                    &&& #[trigger] final(self).tasks().contains_key(k)
                    &&& final(self).tasks()[k] == old(self).tasks()[k]
                },
    {
        let ghost q0 = queue@;
        let ghost t0 = self.tasks();
        let ghost w0 = self.wakers();
        let mut log: Vec<Resumption> = Vec::new();
        loop
            invariant
                self.wf(),
                queue.wf(),
                queue.capacity_spec() == old(queue).capacity_spec(),
                self.next_id() == old(self).next_id(),
                q0 == old(queue)@,
                t0 == old(self).tasks(),
                w0 == old(self).wakers(),
                queue@.len() <= q0.len(),
                queue@ == q0.subrange(q0.len() - queue@.len(), q0.len() as int),
                log@.len() == q0.len() - queue@.len(),
                forall|i: int| 0 <= i < log@.len() ==> resumption_id(#[trigger] log@[i]) == q0[i],
                forall|i: int|
                    0 <= i < log@.len() ==> ((#[trigger] log@[i] is Skipped) <==> !live_after_all(
                        t0.dom(),
                        log@.take(i),
                    ).contains(q0[i])),
                self.tasks().dom() == live_after_all(t0.dom(), log@),
                self.wakers() == wakers_after_all(w0, log@),
                self.tasks().dom().subset_of(t0.dom()),
                forall|k: u64|
                    t0.contains_key(k) && !q0.contains(k) ==> {
                        &&& #[trigger] self.tasks().contains_key(k)
                        &&& self.tasks()[k] == t0[k]
                    },
            ensures
                queue@.len() == 0,
                log@.len() == q0.len(),
            decreases queue@.len(),
        {
            let ghost before = self.tasks();
            let ghost wb = self.wakers();
            let ghost qb = queue@;
            let ghost lb = log@;
            let step = self.run_next(queue, env);
            match step {
                None => {
                    assert(queue@.len() == 0);
                    break;
                },
                Some(res) => {
                    log.push(res);
                    proof {
                        let h = qb[0];
                        let n = lb.len() as int;
                        assert(qb[0] == q0[q0.len() - qb.len()]);
                        assert(q0.contains(h));
                        assert(queue@ =~= q0.subrange(q0.len() - queue@.len(), q0.len() as int));
                        assert(log@.drop_last() =~= lb);
                        assert(log@.take(n) =~= lb);
                        assert forall|i: int| 0 <= i < log@.len() implies resumption_id(
                            #[trigger] log@[i],
                        ) == q0[i] by {
                            if i < n {
                                assert(log@[i] == lb[i]);
                            }
                        }
                        assert forall|i: int| 0 <= i < log@.len() implies ((#[trigger] log@[i] is Skipped)
                            <==> !live_after_all(t0.dom(), log@.take(i)).contains(q0[i])) by {
                            if i < n {
                                assert(log@[i] == lb[i]);
                                assert(log@.take(i) =~= lb.take(i));
                            }
                        }
                        assert forall|k: u64| t0.contains_key(k) && !q0.contains(k) implies {
                            &&& #[trigger] self.tasks().contains_key(k)
                            &&& self.tasks()[k] == t0[k]
                        } by {
                            assert(k != h);
                            assert(self.tasks().remove(h).contains_key(k));
                            assert(before.remove(h)[k] == before[k]);
                        }
                    }
                },
            }
        }
        log
    }

    /// The idle check, made with interrupts disabled: halt only when the
    /// ready queue is still empty.
    pub fn sleep_if_idle(&self, queue: &ReadyQueue) -> (r: IdleAction)
        ensures
            r == idle_decision(queue@),
    {
        if queue.is_empty() {
            IdleAction::Halt
        } else {
            IdleAction::Resume
        }
    }
}

/// One event in the life of an executor and its ready queue: a spawn, a
/// wake-handle invocation for an identifier, or one resumption step in which
/// the resumed task (if any) reports completion when the flag is set.
pub enum ExecOp {
    Spawn,
    Wake(u64),
    Step(bool),
}

/// What a sequence of executor events has done: the live identifiers, the
/// identifier counter, the ready queue, every identifier ever enqueued, every
/// identifier taken off the queue with whether it named a live task (and so
/// was resumed), and every identifier removed from the task table.
pub struct ExecRun {
    pub live: Set<u64>,
    pub next_id: nat,
    pub queue: Seq<u64>,
    pub enqueued: Seq<u64>,
    pub popped: Seq<(u64, bool)>,
    pub removed: Seq<u64>,
}

pub open spec fn exec_op(r: ExecRun, op: ExecOp) -> ExecRun {
    match op {
        ExecOp::Spawn => ExecRun {
            live: r.live.insert(r.next_id as u64),
            next_id: r.next_id + 1,
            queue: r.queue.push(r.next_id as u64),
            enqueued: r.enqueued.push(r.next_id as u64),
            ..r
        },
        ExecOp::Wake(id) => ExecRun { queue: r.queue.push(id), enqueued: r.enqueued.push(id), ..r },
        ExecOp::Step(done) => if r.queue.len() == 0 {
            r
        } else {
            let id = r.queue[0];
            let resumed = r.live.contains(id);
            ExecRun {
                live: if resumed && done {
                    r.live.remove(id)
                } else {
                    r.live
                },
                queue: r.queue.drop_first(),
                popped: r.popped.push((id, resumed)),
                removed: if resumed && done {
                    r.removed.push(id)
                } else {
                    r.removed
                },
                ..r
            }
        },
    }
}

/// Runs `ops` in order from a fresh executor with an empty ready queue.
pub open spec fn exec_ops(ops: Seq<ExecOp>) -> ExecRun
    decreases ops.len(),
{
    if ops.len() == 0 {
        ExecRun {
            live: Set::empty(),
            next_id: 0,
            queue: Seq::empty(),
            enqueued: Seq::empty(),
            popped: Seq::empty(),
            removed: Seq::empty(),
        }
    } else {
        exec_op(exec_ops(ops.drop_last()), ops.last())
    }
}

/// While identifiers stay below the counter's limit: identifiers leave the
/// ready queue in the order they were enqueued, and the i-th one taken off
/// (resumed or skipped) is the i-th one a spawn or a wake put on; a task is
/// removed from the table only in the step where it was resumed and reported
/// completion, no identifier is removed twice, and a removed identifier
/// never becomes live again.
pub proof fn lemma_exec_removal_once(ops: Seq<ExecOp>)
    requires
        exec_ops(ops).next_id <= u64::MAX,
    ensures
        ({
            let r = exec_ops(ops);
            &&& r.enqueued == r.popped.map_values(|p: (u64, bool)| p.0) + r.queue
            &&& r.removed.no_duplicates()
            &&& forall|x: u64| r.removed.contains(x) ==> !#[trigger] r.live.contains(x)
            &&& forall|x: u64| #[trigger] r.live.contains(x) ==> x < r.next_id
            &&& forall|i: int| 0 <= i < r.removed.len() ==> #[trigger] r.removed[i] < r.next_id
        }),
    decreases ops.len(),
{
    let r = exec_ops(ops);
    if ops.len() == 0 {
        assert(r.enqueued =~= r.popped.map_values(|p: (u64, bool)| p.0) + r.queue);
    } else {
        let p = exec_ops(ops.drop_last());
        assert(r == exec_op(p, ops.last()));
        assert(p.next_id <= r.next_id);
        lemma_exec_removal_once(ops.drop_last());
        let f = |q: (u64, bool)| q.0;
        match ops.last() {
            ExecOp::Spawn => {
                assert(r.enqueued =~= r.popped.map_values(f) + r.queue);
                assert forall|x: u64| r.removed.contains(x) implies !#[trigger] r.live.contains(x) by {
                    let i = choose|i: int| 0 <= i < r.removed.len() && r.removed[i] == x;
                    assert(r.removed[i] < p.next_id);
                }
            },
            ExecOp::Wake(id) => {
                assert(r.enqueued =~= r.popped.map_values(f) + r.queue);
            },
            ExecOp::Step(done) => {
                if p.queue.len() > 0 {
                    let id = p.queue[0];
                    let resumed = p.live.contains(id);
                    assert(r.popped.map_values(f) =~= p.popped.map_values(f).push(id));
                    assert(r.enqueued =~= r.popped.map_values(f) + r.queue);
                    if resumed && done {
                        assert(!p.removed.contains(id));
                        assert forall|i: int, j: int|
                            0 <= i < r.removed.len() && 0 <= j < r.removed.len() && i != j
                            implies r.removed[i] != r.removed[j] by {
                            if i == p.removed.len() as int {
                                assert(p.removed.contains(r.removed[j]));
                            } else if j == p.removed.len() as int {
                                assert(p.removed.contains(r.removed[i]));
                            }
                        }
                        assert forall|x: u64| r.removed.contains(x) implies !#[trigger] r.live.contains(x) by {
                            if x != id {
                                let i = choose|i: int| 0 <= i < r.removed.len() && r.removed[i] == x;
                                assert(p.removed[i] == x);
                            }
                        }
                        assert forall|i: int| 0 <= i < r.removed.len() implies #[trigger] r.removed[i] < r.next_id by {
                            if i < p.removed.len() {
                                assert(p.removed[i] == r.removed[i]);
                            }
                        }
                    }
                }
            },
        }
    }
}

/// `run_next`'s contract is the model's resumption step: given the live set
/// and ready queue before, and the live set, queue and result after, as
/// `run_next` states them, `exec_op` with "completed" taken from the result
/// arrives at the same live set and queue.
pub proof fn lemma_run_next_is_model_step(
    r0: ExecRun,
    live1: Set<u64>,
    queue1: Seq<u64>,
    res: Resumption,
)
    requires
        r0.queue.len() > 0,
        queue1 == r0.queue.drop_first(),
        live1 == live_after(r0.live, res),
        !r0.live.contains(r0.queue[0]) ==> res == Resumption::Skipped(TaskId { id: r0.queue[0] }),
        r0.live.contains(r0.queue[0]) ==> match res {
            Resumption::Completed(t) => t.id == r0.queue[0],
            Resumption::Suspended(t) => t.id == r0.queue[0],
            Resumption::Skipped(_) => false,
        },
    ensures
        exec_op(r0, ExecOp::Step(res is Completed)).live == live1,
        exec_op(r0, ExecOp::Step(res is Completed)).queue == queue1,
{
}

/// `spawn`'s contract is the model's spawn step on the live set, the
/// counter and the ready queue.
pub proof fn lemma_spawn_is_model_step(r0: ExecRun, live1: Set<u64>, next1: nat, queue1: Seq<u64>)
    requires
        r0.next_id < u64::MAX,
        live1 == r0.live.insert(r0.next_id as u64),
        next1 == r0.next_id + 1,
        queue1 == r0.queue.push(r0.next_id as u64),
    ensures
        exec_op(r0, ExecOp::Spawn).live == live1,
        exec_op(r0, ExecOp::Spawn).next_id == next1,
        exec_op(r0, ExecOp::Spawn).queue == queue1,
{
}


/// The processor as the idle sequence sees it: whether interrupts are
/// enabled, the wakes of interrupts held back while they are disabled, the
/// ready queue, and whether the processor is halted.
pub struct IdleCpu {
    pub enabled: bool,
    pub held: Seq<u64>,
    pub queue: Seq<u64>,
    pub halted: bool,
}

/// An interrupt whose handler wakes task `id`: taken at once (ending a
/// halt) when interrupts are enabled, held back until they are otherwise.
pub open spec fn cpu_interrupt(c: IdleCpu, id: u64) -> IdleCpu {
    if c.enabled {
        IdleCpu { queue: c.queue.push(id), halted: false, ..c }
    } else {
        IdleCpu { held: c.held.push(id), ..c }
    }
}

/// Interrupts that arrive one after another.
pub open spec fn cpu_interrupts(c: IdleCpu, ids: Seq<u64>) -> IdleCpu
    decreases ids.len(),
{
    if ids.len() == 0 {
        c
    } else {
        cpu_interrupt(cpu_interrupts(c, ids.drop_last()), ids.last())
    }
}

/// Enabling interrupts, alone or together with a halt in one instruction:
/// held-back interrupts are taken, and a halt only lasts when there were
/// none.
pub open spec fn cpu_enable(c: IdleCpu, halt: bool) -> IdleCpu {
    IdleCpu {
        enabled: true,
        held: Seq::empty(),
        queue: c.queue + c.held,
        halted: halt && c.held.len() == 0,
    }
}

/// The idle sequence on a ready queue holding `queue`: interrupts are
/// disabled, the idle check decides, the interrupts `late` arrive after the
/// check, and then interrupts are enabled together with a halt or alone, as
/// decided.
pub open spec fn idle_sequence(queue: Seq<u64>, late: Seq<u64>) -> IdleCpu {
    let start = IdleCpu { enabled: false, held: Seq::empty(), queue, halted: false };
    cpu_enable(cpu_interrupts(start, late), idle_decision(queue) == IdleAction::Halt)
}

proof fn lemma_interrupts_held(c: IdleCpu, ids: Seq<u64>)
    requires
        !c.enabled,
    ensures
        cpu_interrupts(c, ids) == (IdleCpu { held: c.held + ids, ..c }),
    decreases ids.len(),
{
    if ids.len() == 0 {
        assert(c.held + ids =~= c.held);
    } else {
        lemma_interrupts_held(c, ids.drop_last());
        assert((c.held + ids.drop_last()).push(ids.last()) =~= c.held + ids);
    }
}

/// The idle sequence never stalls: whatever interrupts arrive between the
/// idle check and the halt, their wakes end up on the ready queue after the
/// ones already there, interrupts end up enabled, and the processor stays
/// halted only with an empty ready queue. The processor halts exactly when
/// the queue was empty at the check and nothing arrived after it.
pub proof fn lemma_idle_halt_no_stall(queue: Seq<u64>, late: Seq<u64>)
    ensures
        idle_sequence(queue, late).queue == queue + late,
        idle_sequence(queue, late).enabled,
        idle_sequence(queue, late).halted ==> idle_sequence(queue, late).queue.len() == 0,
        idle_sequence(queue, late).halted <==> (queue.len() == 0 && late.len() == 0),
{
    let start = IdleCpu { enabled: false, held: Seq::empty(), queue, halted: false };
    lemma_interrupts_held(start, late);
    assert(Seq::<u64>::empty() + late =~= late);
}

} // verus!
