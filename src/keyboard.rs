//! The interrupt-to-task event bridge, with the keyboard scancode stream as
//! its instance: a bounded byte queue filled from interrupt context plus a
//! single-slot wake notification for the consuming task.

use crate::queue::{
    byte_queue_capacity, byte_queue_items, byte_queue_len, byte_queue_new, byte_queue_pop,
    byte_queue_push,
};
use crate::idt::{set_irq_handler, Irq, IrqTable};
use crate::pic::PicMasks;
use crate::task::{ReadyQueue, WakeHandle};
use crossbeam_queue::ArrayQueue;
use vstd::prelude::*;

verus! {

/// Number of scancodes the keyboard stream buffers.
pub const SCANCODE_QUEUE_CAPACITY: usize = 100;

/// Installs `handler` (which reads one scancode and hands it to
/// [`add_scancode`]) on the keyboard line and unmasks that line.
pub fn init<H: Copy>(table: &mut IrqTable<H>, masks: &mut PicMasks, handler: H)
    requires
        old(table).wf(),
    ensures
        final(table).wf(),
        final(table)@ == old(table)@.update(Irq::Keyboard.line_spec() as int, handler),
        final(masks).word() == old(masks).word() & !(1u16 << (Irq::Keyboard.line_spec() as u16)),
{
    set_irq_handler(table, masks, Irq::Keyboard.line(), handler);
}

/// Holds at most one pending consumer continuation.
pub struct NotifySlot {
    waiter: Option<WakeHandle>,
}

impl View for NotifySlot {
    type V = Option<WakeHandle>;

    closed spec fn view(&self) -> Option<WakeHandle> {
        self.waiter
    }
}

impl NotifySlot {
    /// An empty slot.
    pub fn new() -> (s: NotifySlot)
        ensures
            s@ is None,
    {
        NotifySlot { waiter: None }
    }

    /// Registers `waker` as the pending continuation, replacing any earlier one.
    pub fn register(&mut self, waker: &WakeHandle)
        ensures
            final(self)@ == Some(*waker),
    {
        self.waiter = Some(*waker);
    }

    /// Clears the slot, returning what it held.
    pub fn take(&mut self) -> (r: Option<WakeHandle>)
        ensures
            r == old(self)@,
            final(self)@ is None,
    {
        let r = self.waiter;
        self.waiter = None;
        r
    }

    /// Wakes the registered continuation, if any, and clears the slot; a no-op
    /// on an empty slot.
    pub fn signal(&mut self, queue: &mut ReadyQueue)
        requires
            old(queue).wf(),
            old(self)@ is Some ==> !old(queue).is_full_spec(),
        ensures
            final(self)@ is None,
            final(queue).wf(),
            final(queue).capacity_spec() == old(queue).capacity_spec(),
            final(queue)@ == woken_ids(old(queue)@, old(self)@),
    {
        match self.take() {
            Some(w) => w.wake(queue),
            None => {},
        }
    }
}

/// The ready-queue contents after waking `w` (if any) on a queue holding `q`.
pub open spec fn woken_ids(q: Seq<u64>, w: Option<WakeHandle>) -> Seq<u64> {
    match w {
        Some(h) => q.push(h.task_id.id),
        None => q,
    }
}

/// The abstract state of an event bridge: buffered bytes, front first, and
/// the registered waiter.
pub struct BridgeState {
    pub events: Seq<u8>,
    pub waiter: Option<WakeHandle>,
}

/// Whether a push of a byte is accepted by a bridge in state `s`.
pub open spec fn push_accepted(s: BridgeState, cap: nat) -> bool {
    s.events.len() < cap
}

/// The bridge state after a push: an accepted byte goes to the back and the
/// waiter is signalled; a refused one leaves everything as it was.
pub open spec fn push_step(s: BridgeState, cap: nat, b: u8) -> BridgeState {
    if push_accepted(s, cap) {
        BridgeState { events: s.events.push(b), waiter: None }
    } else {
        s
    }
}

/// The waiter a push wakes.
pub open spec fn push_wakes(s: BridgeState, cap: nat) -> Option<WakeHandle> {
    if push_accepted(s, cap) {
        s.waiter
    } else {
        None
    }
}

/// What a poll by the consumer returns: the oldest byte, if any.
pub open spec fn poll_result(s: BridgeState) -> Option<u8> {
    if s.events.len() > 0 {
        Some(s.events[0])
    } else {
        None
    }
}

/// The bridge state after a poll by the consumer holding `w`: a byte is
/// taken when there is one, otherwise `w` is registered.
pub open spec fn poll_step(s: BridgeState, w: WakeHandle) -> BridgeState {
    if s.events.len() > 0 {
        BridgeState { events: s.events.drop_first(), waiter: s.waiter }
    } else {
        BridgeState { events: s.events, waiter: Some(w) }
    }
}

/// Outcome of a producer push.
#[derive(Clone, Copy, Debug, PartialEq, Eq, Structural)]
pub enum EventPush {
    /// The byte was queued and the waiting consumer, if any, was woken.
    Queued,
    /// The queue was full: the byte was discarded.
    Dropped,
}

/// Outcome of a consumer poll.
#[derive(Clone, Copy, Debug, PartialEq, Eq, Structural)]
pub enum EventPoll {
    Ready(u8),
    /// Nothing buffered; the consumer's wake handle is registered.
    Pending,
}

/// The keyboard's event bridge: scancodes pushed by the interrupt handler,
/// consumed by a task.
pub struct ScancodeStream {
    queue: ArrayQueue<u8>,
    slot: NotifySlot,
}

impl ScancodeStream {
    pub closed spec fn state(&self) -> BridgeState {
        BridgeState { events: byte_queue_items(self.queue), waiter: self.slot@ }
    }

    pub closed spec fn capacity_spec(&self) -> nat {
        byte_queue_capacity(self.queue)
    }

    /// The buffer is within its capacity, and a waiter is only registered
    /// while nothing is buffered.
    pub open spec fn wf(&self) -> bool {
        &&& self.state().events.len() <= self.capacity_spec()
        &&& self.state().waiter is Some ==> self.state().events.len() == 0
    }

    /// An empty stream with the default capacity.
    pub fn new() -> (s: ScancodeStream)
        ensures
            s.wf(),
            s.state() == (BridgeState { events: Seq::empty(), waiter: None }),
            s.capacity_spec() == SCANCODE_QUEUE_CAPACITY,
    {
        ScancodeStream::with_capacity(SCANCODE_QUEUE_CAPACITY)
    }

    /// An empty stream buffering at most `cap` bytes.
    pub fn with_capacity(cap: usize) -> (s: ScancodeStream)
        requires
            0 < cap <= 0x1_0000,
        ensures
            s.wf(),
            s.state() == (BridgeState { events: Seq::empty(), waiter: None }),
            s.capacity_spec() == cap,
    {
        ScancodeStream { queue: byte_queue_new(cap), slot: NotifySlot::new() }
    }

    /// Number of buffered bytes.
    pub fn len(&self) -> (r: usize)
        ensures
            r == self.state().events.len(),
    {
        byte_queue_len(&self.queue)
    }

    /// Whether a push would wake a task (so the ready queue needs room).
    pub fn has_waiter(&self) -> (r: bool)
        ensures
            r == self.state().waiter is Some,
    {
        self.slot.waiter.is_some()
    }

    /// Consumer side. Fast path: return the oldest byte. Otherwise register
    /// `waker`, then look again, so that a byte pushed between the first look
    /// and the registration is not left behind without a wake-up.
    pub fn poll_next(&mut self, waker: &WakeHandle) -> (r: EventPoll)
        ensures
            old(self).wf() ==> final(self).wf(),
            final(self).capacity_spec() == old(self).capacity_spec(),
            final(self).state() == poll_step(old(self).state(), *waker),
            r == match poll_result(old(self).state()) {
                Some(b) => EventPoll::Ready(b),
                None => EventPoll::Pending,
            },
    {
        if let Some(b) = byte_queue_pop(&mut self.queue) {
            return EventPoll::Ready(b);
        }
        self.slot.register(waker);
        match byte_queue_pop(&mut self.queue) {
            Some(b) => {
                let _ = self.slot.take();
                EventPoll::Ready(b)
            },
            None => EventPoll::Pending,
        }
    }
}

/// Producer side, run from the keyboard interrupt: queue `scancode` and wake
/// the waiting consumer. On a full queue the byte is dropped and nothing else
/// happens (the caller logs one warning per drop); this never blocks and
/// never fails.
pub fn add_scancode(stream: &mut ScancodeStream, scancode: u8, queue: &mut ReadyQueue) -> (r:
    EventPush)
    requires
        old(queue).wf(),
        push_wakes(old(stream).state(), old(stream).capacity_spec()) is Some
            ==> !old(queue).is_full_spec(),
    ensures
        old(stream).wf() ==> final(stream).wf(),
        final(stream).capacity_spec() == old(stream).capacity_spec(),
        final(stream).state() == push_step(
            old(stream).state(),
            old(stream).capacity_spec(),
            scancode,
        ),
        r == (if push_accepted(old(stream).state(), old(stream).capacity_spec()) {
            EventPush::Queued
        } else {
            EventPush::Dropped
        }),
        final(queue).wf(),
        final(queue).capacity_spec() == old(queue).capacity_spec(),
        final(queue)@ == woken_ids(
            old(queue)@,
            push_wakes(old(stream).state(), old(stream).capacity_spec()),
        ),
{
    match byte_queue_push(&mut stream.queue, scancode) {
        Ok(()) => {
            stream.slot.signal(queue);
            EventPush::Queued
        },
        Err(_) => EventPush::Dropped,
    }
}

/// One operation on an event bridge: a producer push or a consumer poll.
pub enum BridgeOp {
    Push(u8),
    Poll,
}

/// What an interleaving of bridge operations has done so far: the bridge
/// state, the bytes accepted and delivered, the task identifiers woken, and
/// whether the consumer is parked (its last poll came back pending and it has
/// not been woken since).
pub struct BridgeRun {
    pub state: BridgeState,
    pub accepted: Seq<u8>,
    pub delivered: Seq<u8>,
    pub woken: Seq<u64>,
    pub parked: bool,
}

pub open spec fn run_op(r: BridgeRun, cap: nat, w: WakeHandle, op: BridgeOp) -> BridgeRun {
    match op {
        BridgeOp::Push(b) => BridgeRun {
            state: push_step(r.state, cap, b),
            accepted: if push_accepted(r.state, cap) {
                r.accepted.push(b)
            } else {
                r.accepted
            },
            delivered: r.delivered,
            woken: woken_ids(r.woken, push_wakes(r.state, cap)),
            parked: if push_wakes(r.state, cap) is Some {
                false
            } else {
                r.parked
            },
        },
        BridgeOp::Poll => BridgeRun {
            state: poll_step(r.state, w),
            accepted: r.accepted,
            delivered: match poll_result(r.state) {
                Some(b) => r.delivered.push(b),
                None => r.delivered,
            },
            woken: r.woken,
            parked: poll_result(r.state) is None,
        },
    }
}

/// Runs `ops` in order on a fresh bridge of capacity `cap` whose single
/// consumer polls with the wake handle `w`.
pub open spec fn run_ops(cap: nat, w: WakeHandle, ops: Seq<BridgeOp>) -> BridgeRun
    decreases ops.len(),
{
    if ops.len() == 0 {
        BridgeRun {
            state: BridgeState { events: Seq::empty(), waiter: None },
            accepted: Seq::empty(),
            delivered: Seq::empty(),
            woken: Seq::empty(),
            parked: false,
        }
    } else {
        run_op(run_ops(cap, w, ops.drop_last()), cap, w, ops.last())
    }
}

/// For every interleaving of producer pushes and consumer polls, each
/// accepted byte is delivered to exactly one poll, in the order of pushing
/// (what is not yet delivered is still buffered, in order); the consumer is
/// never parked while a byte waits, since a parked consumer is the registered
/// waiter and every accepted push wakes it; and every wake-up targets the
/// consumer.
pub proof fn lemma_bridge_no_lost_wakeup(cap: nat, w: WakeHandle, ops: Seq<BridgeOp>)
    ensures
        run_ops(cap, w, ops).accepted == run_ops(cap, w, ops).delivered + run_ops(
            cap,
            w,
            ops,
        ).state.events,
        run_ops(cap, w, ops).parked ==> run_ops(cap, w, ops).state.events.len() == 0,
        run_ops(cap, w, ops).parked <==> run_ops(cap, w, ops).state.waiter == Some(w),
        run_ops(cap, w, ops).state.waiter is Some ==> run_ops(cap, w, ops).state.waiter == Some(
            w,
        ),
        forall|i: int|
            0 <= i < run_ops(cap, w, ops).woken.len() ==> #[trigger] run_ops(
                cap,
                w,
                ops,
            ).woken[i] == w.task_id.id,
    decreases ops.len(),
{
    if ops.len() == 0 {
        assert(run_ops(cap, w, ops).accepted =~= run_ops(cap, w, ops).delivered + run_ops(
            cap,
            w,
            ops,
        ).state.events);
    } else {
        lemma_bridge_no_lost_wakeup(cap, w, ops.drop_last());
        let p = run_ops(cap, w, ops.drop_last());
        let r = run_ops(cap, w, ops);
        assert(r == run_op(p, cap, w, ops.last()));
        match ops.last() {
            BridgeOp::Push(b) => {
                if push_accepted(p.state, cap) {
                    assert(r.accepted =~= r.delivered + r.state.events);
                }
            },
            BridgeOp::Poll => {
                if p.state.events.len() > 0 {
                    assert(p.state.events =~= seq![p.state.events[0]] + p.state.events.drop_first());
                    assert(r.accepted =~= r.delivered + r.state.events);
                }
            },
        }
    }
}

} // verus!
