use waterfall::executor::Executor;
use waterfall::keyboard::{add_scancode, ScancodeStream};
use waterfall::keypress::{KeyInput, KeyPrinter};
use waterfall::task::{ReadyQueue, TaskPoll, WakeHandle, TaskId};

#[test]
fn scancodes_become_typed_characters() {
    let mut input = KeyInput { stream: ScancodeStream::new(), typed: Vec::new() };
    let mut rq = ReadyQueue::new();
    // 'h' press, 'h' release, 'i' press, 'i' release (scancode set 1)
    for b in [0x23u8, 0xA3, 0x17, 0x97] {
        add_scancode(&mut input.stream, b, &mut rq);
    }
    let mut p = KeyPrinter::new();
    let w = WakeHandle::new(TaskId { id: 0 });
    assert_eq!(p.resume(&w, &mut input), TaskPoll::Pending);
    assert_eq!(input.typed, vec!['h', 'i']);
    assert_eq!(input.stream.len(), 0);
    assert!(input.stream.has_waiter());
}

#[test]
fn keypress_task_runs_under_the_executor() {
    let mut ex: Executor<KeyPrinter> = Executor::new();
    let mut rq = ReadyQueue::new();
    let mut input = KeyInput { stream: ScancodeStream::new(), typed: Vec::new() };
    let id = ex.spawn(KeyPrinter::new(), &mut rq);
    ex.run_ready_tasks(&mut rq, &mut input);
    assert!(input.typed.is_empty());
    assert!(rq.is_empty());
    // the keyboard interrupt queues a scancode and wakes the parked task
    add_scancode(&mut input.stream, 0x1E, &mut rq);
    assert_eq!(rq.len(), 1);
    ex.run_ready_tasks(&mut rq, &mut input);
    assert_eq!(input.typed, vec!['a']);
    assert!(ex.contains(id));
}

#[test]
fn shifted_keys_type_capitals_in_order() {
    let mut input = KeyInput { stream: ScancodeStream::new(), typed: Vec::new() };
    let mut rq = ReadyQueue::new();
    // left shift down, 'a', left shift up, 'b', an extended key (right ctrl)
    for b in [0x2Au8, 0x1E, 0x9E, 0xAA, 0x30, 0xB0, 0xE0, 0x1D, 0xE0, 0x9D] {
        add_scancode(&mut input.stream, b, &mut rq);
    }
    let mut p = KeyPrinter::new();
    let w = WakeHandle::new(TaskId { id: 0 });
    assert_eq!(p.resume(&w, &mut input), TaskPoll::Pending);
    assert_eq!(input.typed, vec!['A', 'b']);
}
