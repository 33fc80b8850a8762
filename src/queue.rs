//! Bounded FIFO queues backed by `crossbeam_queue::ArrayQueue`.
//!
//! Two instantiations are used: a queue of task identifiers (the ready queue)
//! and a queue of raw event bytes. Their contents are named by spec functions
//! that the trusted wrappers below speak of.

use crossbeam_queue::ArrayQueue;
use vstd::prelude::*;

verus! {

#[verifier::external_type_specification]
#[verifier::external_body]
#[verifier::reject_recursive_types(T)]
pub struct ExArrayQueue<T>(ArrayQueue<T>);

/// The identifiers held by a queue of task identifiers, front first.
pub uninterp spec fn id_queue_items(q: ArrayQueue<u64>) -> Seq<u64>;

/// The capacity a queue of task identifiers was created with.
pub uninterp spec fn id_queue_capacity(q: ArrayQueue<u64>) -> nat;

/// The bytes held by a queue of bytes, front first.
pub uninterp spec fn byte_queue_items(q: ArrayQueue<u8>) -> Seq<u8>;

/// The capacity a queue of bytes was created with.
pub uninterp spec fn byte_queue_capacity(q: ArrayQueue<u8>) -> nat;

/// Relies on `ArrayQueue::new`: an empty queue with exactly `cap` slots. It
/// panics on a zero capacity and on one whose lap size overflows, so the
/// capacity is kept small.
#[verifier::external_body]
pub(crate) fn id_queue_new(cap: usize) -> (q: ArrayQueue<u64>)
    requires
        0 < cap <= 0x1_0000,
    ensures
        id_queue_items(q) == Seq::<u64>::empty(),
        id_queue_capacity(q) == cap,
{
    ArrayQueue::new(cap)
}

/// Relies on `ArrayQueue::push_mut`: the value goes to the back unless the
/// queue is full, in which case it is handed back and nothing changes.
#[verifier::external_body]
pub(crate) fn id_queue_push(q: &mut ArrayQueue<u64>, v: u64) -> (r: Result<(), u64>)
    ensures
        id_queue_capacity(*final(q)) == id_queue_capacity(*old(q)),
        id_queue_items(*old(q)).len() < id_queue_capacity(*old(q)) ==> {
            &&& r is Ok
            &&& id_queue_items(*final(q)) == id_queue_items(*old(q)).push(v)
        },
        id_queue_items(*old(q)).len() >= id_queue_capacity(*old(q)) ==> {
            &&& r == Err::<(), u64>(v)
            &&& id_queue_items(*final(q)) == id_queue_items(*old(q))
        },
{
    q.push_mut(v)
}

/// Relies on `ArrayQueue::pop_mut`: removes and returns the front value, or
/// returns `None` on an empty queue.
#[verifier::external_body]
pub(crate) fn id_queue_pop(q: &mut ArrayQueue<u64>) -> (r: Option<u64>)
    ensures
        id_queue_capacity(*final(q)) == id_queue_capacity(*old(q)),
        id_queue_items(*old(q)).len() == 0 ==> {
            &&& r is None
            &&& id_queue_items(*final(q)) == id_queue_items(*old(q))
        },
        id_queue_items(*old(q)).len() > 0 ==> {
            &&& r == Some(id_queue_items(*old(q))[0])
            &&& id_queue_items(*final(q)) == id_queue_items(*old(q)).drop_first()
        },
{
    q.pop_mut()
}

/// Relies on `ArrayQueue::len`: the number of values held.
#[verifier::external_body]
pub(crate) fn id_queue_len(q: &ArrayQueue<u64>) -> (r: usize)
    ensures
        r == id_queue_items(*q).len(),
{
    q.len()
}

/// Relies on `ArrayQueue::capacity`: the capacity the queue was created with.
#[verifier::external_body]
pub(crate) fn id_queue_cap(q: &ArrayQueue<u64>) -> (r: usize)
    ensures
        r == id_queue_capacity(*q),
{
    q.capacity()
}

/// Relies on `ArrayQueue::new`: an empty queue with exactly `cap` slots. It
/// panics on a zero capacity and on one whose lap size overflows, so the
/// capacity is kept small.
#[verifier::external_body]
pub(crate) fn byte_queue_new(cap: usize) -> (q: ArrayQueue<u8>)
    requires
        0 < cap <= 0x1_0000,
    ensures
        byte_queue_items(q) == Seq::<u8>::empty(),
        byte_queue_capacity(q) == cap,
{
    ArrayQueue::new(cap)
}

/// Relies on `ArrayQueue::push_mut`: the value goes to the back unless the
/// queue is full, in which case it is handed back and nothing changes.
#[verifier::external_body]
pub(crate) fn byte_queue_push(q: &mut ArrayQueue<u8>, v: u8) -> (r: Result<(), u8>)
    ensures
        byte_queue_capacity(*final(q)) == byte_queue_capacity(*old(q)),
        byte_queue_items(*old(q)).len() < byte_queue_capacity(*old(q)) ==> {
            &&& r is Ok
            &&& byte_queue_items(*final(q)) == byte_queue_items(*old(q)).push(v)
        },
        byte_queue_items(*old(q)).len() >= byte_queue_capacity(*old(q)) ==> {
            &&& r == Err::<(), u8>(v)
            &&& byte_queue_items(*final(q)) == byte_queue_items(*old(q))
        },
{
    q.push_mut(v)
}

/// Relies on `ArrayQueue::pop_mut`: removes and returns the front value, or
/// returns `None` on an empty queue.
#[verifier::external_body]
pub(crate) fn byte_queue_pop(q: &mut ArrayQueue<u8>) -> (r: Option<u8>)
    ensures
        byte_queue_capacity(*final(q)) == byte_queue_capacity(*old(q)),
        byte_queue_items(*old(q)).len() == 0 ==> {
            &&& r is None
            &&& byte_queue_items(*final(q)) == byte_queue_items(*old(q))
        },
        byte_queue_items(*old(q)).len() > 0 ==> {
            &&& r == Some(byte_queue_items(*old(q))[0])
            &&& byte_queue_items(*final(q)) == byte_queue_items(*old(q)).drop_first()
        },
{
    q.pop_mut()
}

/// Relies on `ArrayQueue::len`: the number of values held.
#[verifier::external_body]
pub(crate) fn byte_queue_len(q: &ArrayQueue<u8>) -> (r: usize)
    ensures
        r == byte_queue_items(*q).len(),
{
    q.len()
}

} // verus!
