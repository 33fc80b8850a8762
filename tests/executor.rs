use waterfall::executor::{Executor, IdleAction, Resumption};
use waterfall::task::{ReadyQueue, Task, TaskId, TaskPoll, WakeHandle, READY_QUEUE_CAPACITY};

/// A task that needs `remaining` more resumptions before it finishes, and
/// records every resumption in the shared log.
struct Countdown {
    remaining: u32,
}

impl Task<Vec<u64>> for Countdown {
    fn poll(&mut self, waker: &WakeHandle, log: &mut Vec<u64>) -> TaskPoll {
        log.push(waker.task_id.as_u64());
        if self.remaining <= 1 {
            TaskPoll::Ready
        } else {
            self.remaining -= 1;
            TaskPoll::Pending
        }
    }
}

#[test]
fn spawn_assigns_fresh_ids_and_enqueues_them() {
    let mut ex: Executor<Countdown> = Executor::new();
    let mut rq = ReadyQueue::new();
    let a = ex.spawn(Countdown { remaining: 1 }, &mut rq);
    let b = ex.spawn(Countdown { remaining: 1 }, &mut rq);
    assert_eq!(a, TaskId { id: 0 });
    assert_eq!(b, TaskId { id: 1 });
    assert_eq!(rq.len(), 2);
    assert_eq!(ex.task_count(), 2);
    assert!(ex.contains(a) && ex.contains(b));
}

#[test]
fn completed_tasks_are_removed_exactly_once() {
    let mut ex: Executor<Countdown> = Executor::new();
    let mut rq = ReadyQueue::new();
    let a = ex.spawn(Countdown { remaining: 1 }, &mut rq);
    let b = ex.spawn(Countdown { remaining: 2 }, &mut rq);
    let mut log = Vec::new();
    let steps = ex.run_ready_tasks(&mut rq, &mut log);
    assert_eq!(steps, vec![Resumption::Completed(a), Resumption::Suspended(b)]);
    assert_eq!(log, vec![0, 1]);
    assert!(!ex.contains(a));
    assert!(ex.contains(b));
    assert!(rq.is_empty());
    // a stale wake for the finished task is skipped, b runs to completion
    WakeHandle::new(a).wake(&mut rq);
    WakeHandle::new(b).wake(&mut rq);
    assert_eq!(ex.run_next(&mut rq, &mut log), Some(Resumption::Skipped(a)));
    assert_eq!(ex.run_next(&mut rq, &mut log), Some(Resumption::Completed(b)));
    assert_eq!(ex.run_next(&mut rq, &mut log), None);
    assert_eq!(log, vec![0, 1, 1]);
    assert_eq!(ex.task_count(), 0);
    // a new spawn never reuses a removed identifier
    let c = ex.spawn(Countdown { remaining: 1 }, &mut rq);
    assert_eq!(c, TaskId { id: 2 });
}

#[test]
fn unwoken_task_is_not_resumed() {
    let mut ex: Executor<Countdown> = Executor::new();
    let mut rq = ReadyQueue::new();
    let a = ex.spawn(Countdown { remaining: 5 }, &mut rq);
    let b = ex.spawn(Countdown { remaining: 5 }, &mut rq);
    let mut log = Vec::new();
    ex.run_ready_tasks(&mut rq, &mut log);
    assert_eq!(log, vec![0, 1]);
    // only b is woken: only b runs
    WakeHandle::new(b).wake(&mut rq);
    ex.run_ready_tasks(&mut rq, &mut log);
    assert_eq!(log, vec![0, 1, 1]);
    ex.run_ready_tasks(&mut rq, &mut log);
    assert_eq!(log, vec![0, 1, 1]);
    assert!(ex.contains(a));
}

#[test]
fn resumption_follows_wake_order() {
    let mut ex: Executor<Countdown> = Executor::new();
    let mut rq = ReadyQueue::new();
    let a = ex.spawn(Countdown { remaining: 9 }, &mut rq);
    let b = ex.spawn(Countdown { remaining: 9 }, &mut rq);
    let c = ex.spawn(Countdown { remaining: 9 }, &mut rq);
    let mut log = Vec::new();
    ex.run_ready_tasks(&mut rq, &mut log);
    log.clear();
    WakeHandle::new(c).wake(&mut rq);
    WakeHandle::new(a).wake(&mut rq);
    WakeHandle::new(c).wake(&mut rq);
    WakeHandle::new(b).wake(&mut rq);
    let steps = ex.run_ready_tasks(&mut rq, &mut log);
    assert_eq!(log, vec![2, 0, 2, 1]);
    assert_eq!(
        steps,
        vec![
            Resumption::Suspended(c),
            Resumption::Suspended(a),
            Resumption::Suspended(c),
            Resumption::Suspended(b)
        ]
    );
}

#[test]
fn idle_check_halts_only_on_empty_queue() {
    let ex: Executor<Countdown> = Executor::new();
    let mut rq = ReadyQueue::new();
    assert_eq!(ex.sleep_if_idle(&rq), IdleAction::Halt);
    // an interrupt between the check and the halt leaves its wake queued
    WakeHandle::new(TaskId { id: 7 }).wake(&mut rq);
    assert_eq!(ex.sleep_if_idle(&rq), IdleAction::Resume);
    assert_eq!(rq.pop(), Some(TaskId { id: 7 }));
}

#[test]
fn ready_queue_capacity_is_the_admission_ceiling() {
    let mut ex: Executor<Countdown> = Executor::new();
    let mut rq = ReadyQueue::new();
    assert_eq!(rq.capacity(), READY_QUEUE_CAPACITY);
    for _ in 0..READY_QUEUE_CAPACITY {
        assert!(!rq.is_full());
        ex.spawn(Countdown { remaining: 1 }, &mut rq);
    }
    assert!(rq.is_full());
    assert_eq!(rq.len(), 100);
    assert!(!ex.ids_exhausted());
}

#[test]
fn ready_queue_pops_in_fifo_order() {
    let mut rq = ReadyQueue::with_capacity(2);
    rq.push(TaskId { id: 4 });
    rq.push(TaskId { id: 9 });
    assert!(rq.is_full());
    assert_eq!(rq.pop(), Some(TaskId { id: 4 }));
    assert_eq!(rq.pop(), Some(TaskId { id: 9 }));
    assert_eq!(rq.pop(), None);
}

#[test]
fn drain_skips_finished_ids() {
    let mut ex: Executor<Countdown> = Executor::new();
    let mut rq = ReadyQueue::new();
    let a = ex.spawn(Countdown { remaining: 1 }, &mut rq);
    WakeHandle::new(a).wake(&mut rq);
    let mut log = Vec::new();
    let steps = ex.run_ready_tasks(&mut rq, &mut log);
    assert_eq!(steps, vec![Resumption::Completed(a), Resumption::Skipped(a)]);
    assert_eq!(log, vec![0]);
    assert_eq!(ex.task_count(), 0);
}
