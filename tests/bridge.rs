use waterfall::idt::IrqTable;
use waterfall::keyboard::{add_scancode, init, EventPoll, EventPush, NotifySlot, ScancodeStream};
use waterfall::pic::PicMasks;
use waterfall::task::{ReadyQueue, TaskId, WakeHandle};

type LineHandler = fn(&mut ScancodeStream, u8, &mut ReadyQueue) -> EventPush;

fn no_op(_: &mut ScancodeStream, _: u8, _: &mut ReadyQueue) -> EventPush {
    EventPush::Queued
}

#[test]
fn full_queue_drops_and_consumer_drains_in_order() {
    let mut table: IrqTable<LineHandler> = IrqTable::new(no_op);
    let mut masks = PicMasks { master: 0xFF, slave: 0xFF };
    init(&mut table, &mut masks, add_scancode);
    assert_eq!(masks.master, 0xFD);

    let mut stream = ScancodeStream::with_capacity(2);
    let mut rq = ReadyQueue::new();
    let mut warnings = 0;
    for _ in 0..3 {
        let d = table.dispatch(1);
        assert_eq!(d.eoi_vector, 33);
        if (d.handler)(&mut stream, 0x1E, &mut rq) == EventPush::Dropped {
            warnings += 1;
        }
    }
    assert_eq!(stream.len(), 2);
    assert_eq!(warnings, 1);

    let w = WakeHandle::new(TaskId { id: 0 });
    assert_eq!(stream.poll_next(&w), EventPoll::Ready(0x1E));
    assert_eq!(stream.poll_next(&w), EventPoll::Ready(0x1E));
    assert_eq!(stream.poll_next(&w), EventPoll::Pending);
    assert!(rq.is_empty());
}

#[test]
fn push_wakes_parked_consumer_once() {
    let mut stream = ScancodeStream::new();
    let mut rq = ReadyQueue::new();
    let w = WakeHandle::new(TaskId { id: 3 });
    assert_eq!(stream.poll_next(&w), EventPoll::Pending);
    assert!(stream.has_waiter());
    assert_eq!(add_scancode(&mut stream, 0x10, &mut rq), EventPush::Queued);
    assert_eq!(rq.len(), 1);
    assert!(!stream.has_waiter());
    // a second push finds no waiter: no second wake
    assert_eq!(add_scancode(&mut stream, 0x11, &mut rq), EventPush::Queued);
    assert_eq!(rq.len(), 1);
    assert_eq!(rq.pop(), Some(TaskId { id: 3 }));
    assert_eq!(stream.poll_next(&w), EventPoll::Ready(0x10));
    assert_eq!(stream.poll_next(&w), EventPoll::Ready(0x11));
    assert_eq!(stream.poll_next(&w), EventPoll::Pending);
}

#[test]
fn interleaved_pushes_and_polls_deliver_every_byte_once() {
    let mut stream = ScancodeStream::with_capacity(3);
    let mut rq = ReadyQueue::new();
    let w = WakeHandle::new(TaskId { id: 1 });
    let mut delivered = Vec::new();
    let mut wakes = 0;
    let script: [Option<u8>; 10] =
        [None, Some(1), Some(2), None, Some(3), None, None, None, Some(4), Some(5)];
    for step in script {
        match step {
            Some(b) => {
                let before = rq.len();
                add_scancode(&mut stream, b, &mut rq);
                wakes += rq.len() - before;
            }
            None => {
                if let EventPoll::Ready(b) = stream.poll_next(&w) {
                    delivered.push(b);
                }
            }
        }
    }
    while let EventPoll::Ready(b) = stream.poll_next(&w) {
        delivered.push(b);
    }
    assert_eq!(delivered, vec![1, 2, 3, 4, 5]);
    // parked at the start and after the poll that found nothing
    assert_eq!(wakes, 2);
}

#[test]
fn pushing_into_full_stream_leaves_it_unchanged() {
    let mut stream = ScancodeStream::with_capacity(1);
    let mut rq = ReadyQueue::new();
    assert_eq!(add_scancode(&mut stream, 7, &mut rq), EventPush::Queued);
    assert_eq!(add_scancode(&mut stream, 8, &mut rq), EventPush::Dropped);
    assert_eq!(add_scancode(&mut stream, 9, &mut rq), EventPush::Dropped);
    assert_eq!(stream.len(), 1);
    let w = WakeHandle::new(TaskId { id: 0 });
    assert_eq!(stream.poll_next(&w), EventPoll::Ready(7));
}

#[test]
fn notify_slot_signal_is_idempotent() {
    let mut slot = NotifySlot::new();
    let mut rq = ReadyQueue::new();
    slot.signal(&mut rq);
    assert!(rq.is_empty());
    slot.register(&WakeHandle::new(TaskId { id: 5 }));
    slot.register(&WakeHandle::new(TaskId { id: 6 }));
    slot.signal(&mut rq);
    slot.signal(&mut rq);
    assert_eq!(rq.len(), 1);
    assert_eq!(rq.pop(), Some(TaskId { id: 6 }));
    assert_eq!(slot.take(), None);
}

#[test]
fn default_stream_capacity_is_one_hundred() {
    let mut stream = ScancodeStream::new();
    let mut rq = ReadyQueue::new();
    for i in 0..100u32 {
        assert_eq!(add_scancode(&mut stream, i as u8, &mut rq), EventPush::Queued);
    }
    assert_eq!(add_scancode(&mut stream, 0, &mut rq), EventPush::Dropped);
    assert_eq!(stream.len(), 100);
}

#[test]
fn randomized_interleavings_lose_nothing() {
    let mut seed: u64 = 0x2545_F491_4F6C_DD1D;
    for round in 0..50u32 {
        let cap = 1 + (round % 4) as usize;
        let mut stream = ScancodeStream::with_capacity(cap);
        let mut rq = ReadyQueue::new();
        let w = WakeHandle::new(TaskId { id: 9 });
        let mut accepted = Vec::new();
        let mut delivered = Vec::new();
        let mut parked = false;
        let mut next: u8 = 0;
        for _ in 0..200 {
            seed ^= seed << 13;
            seed ^= seed >> 7;
            seed ^= seed << 17;
            if seed % 2 == 0 {
                let before = rq.len();
                if add_scancode(&mut stream, next, &mut rq) == EventPush::Queued {
                    accepted.push(next);
                }
                if rq.len() > before {
                    assert!(parked);
                    parked = false;
                    assert_eq!(rq.pop(), Some(TaskId { id: 9 }));
                }
                next = next.wrapping_add(1);
            } else {
                match stream.poll_next(&w) {
                    EventPoll::Ready(b) => {
                        delivered.push(b);
                        parked = false;
                    }
                    EventPoll::Pending => parked = true,
                }
            }
            // a parked consumer never has bytes waiting for it
            if parked {
                assert_eq!(stream.len(), 0);
            }
        }
        while let EventPoll::Ready(b) = stream.poll_next(&w) {
            delivered.push(b);
        }
        assert_eq!(delivered, accepted);
    }
}
