//! Trusted declarations for `crossbeam_queue::ArrayQueue`, the bounded
//! lock-free ring buffer that both the ready-queue of task identifiers and the
//! scancode byte channel are built on.
//!
//! The queue itself is outside code; everything Verus knows about it is stated
//! here, over two uninterpreted names per element type: the sequence of
//! elements currently stored (oldest first) and the fixed capacity chosen at
//! construction. The contracts state exactly what the crossbeam sources show
//! for exclusive access: `push` appends at the tail unless the queue is full
//! (in which case it fails and changes nothing), and `pop` removes the oldest
//! element. All wrappers take the queue exclusively, so the lock-free
//! internals behave like a plain FIFO.

use vstd::prelude::*;
use crossbeam_queue::ArrayQueue;

verus! {

#[verifier::external_type_specification]
#[verifier::external_body]
#[verifier::reject_recursive_types(T)]
pub struct ExArrayQueue<T>(ArrayQueue<T>);

/// The elements a `u64` queue currently holds, oldest first.
pub uninterp spec fn u64_queue_elems(q: ArrayQueue<u64>) -> Seq<u64>;

/// The capacity a `u64` queue was constructed with.
pub uninterp spec fn u64_queue_capacity(q: ArrayQueue<u64>) -> nat;

/// The elements a byte queue currently holds, oldest first.
pub uninterp spec fn u8_queue_elems(q: ArrayQueue<u8>) -> Seq<u8>;

/// The capacity a byte queue was constructed with.
pub uninterp spec fn u8_queue_capacity(q: ArrayQueue<u8>) -> nat;

/// Relies on `ArrayQueue::new`: returns an empty queue of the given capacity.
/// It panics on capacity zero (and on absurdly large capacities, when the
/// internal stamp arithmetic would overflow); the precondition rules both out.
#[verifier::external_body]
pub(crate) fn u64_queue_new(capacity: usize) -> (q: ArrayQueue<u64>)
    requires
        0 < capacity <= 0x1000_0000,
    ensures
        u64_queue_elems(q) == Seq::<u64>::empty(),
        u64_queue_capacity(q) == capacity as nat,
{
    ArrayQueue::new(capacity)
}

/// Relies on `ArrayQueue::push`: appends at the tail and returns `Ok(())`,
/// unless the queue is full, in which case it returns the value back as an
/// error and stores nothing.
#[verifier::external_body]
pub(crate) fn u64_queue_push(q: &mut ArrayQueue<u64>, value: u64) -> (ok: bool)
    ensures
        u64_queue_capacity(*final(q)) == u64_queue_capacity(*old(q)),
        u64_queue_elems(*old(q)).len() < u64_queue_capacity(*old(q)) ==> ok
            && u64_queue_elems(*final(q)) == u64_queue_elems(*old(q)).push(value),
        u64_queue_elems(*old(q)).len() >= u64_queue_capacity(*old(q)) ==> !ok
            && u64_queue_elems(*final(q)) == u64_queue_elems(*old(q)),
{
    q.push(value).is_ok()
}

/// Relies on `ArrayQueue::pop`: removes and returns the oldest element, or
/// returns `None` and changes nothing if the queue is empty.
#[verifier::external_body]
pub(crate) fn u64_queue_pop(q: &mut ArrayQueue<u64>) -> (r: Option<u64>)
    ensures
        u64_queue_capacity(*final(q)) == u64_queue_capacity(*old(q)),
        u64_queue_elems(*old(q)).len() == 0 ==> r is None
            && u64_queue_elems(*final(q)) == u64_queue_elems(*old(q)),
        u64_queue_elems(*old(q)).len() > 0 ==> r == Some(u64_queue_elems(*old(q))[0])
            && u64_queue_elems(*final(q)) == u64_queue_elems(*old(q)).skip(1),
{
    q.pop()
}

/// Relies on `ArrayQueue::len`: the number of stored elements. Exact here
/// because the queue is owned exclusively.
#[verifier::external_body]
pub(crate) fn u64_queue_len(q: &ArrayQueue<u64>) -> (n: usize)
    ensures
        n == u64_queue_elems(*q).len(),
{
    q.len()
}

/// Relies on `ArrayQueue::is_empty`. Exact here because the queue is owned
/// exclusively.
#[verifier::external_body]
pub(crate) fn u64_queue_is_empty(q: &ArrayQueue<u64>) -> (r: bool)
    ensures
        r == (u64_queue_elems(*q).len() == 0),
{
    q.is_empty()
}

/// Relies on `ArrayQueue::new`; see `u64_queue_new`.
#[verifier::external_body]
pub(crate) fn u8_queue_new(capacity: usize) -> (q: ArrayQueue<u8>)
    requires
        0 < capacity <= 0x1000_0000,
    ensures
        u8_queue_elems(q) == Seq::<u8>::empty(),
        u8_queue_capacity(q) == capacity as nat,
{
    ArrayQueue::new(capacity)
}

/// Relies on `ArrayQueue::push`; see `u64_queue_push`.
#[verifier::external_body]
pub(crate) fn u8_queue_push(q: &mut ArrayQueue<u8>, value: u8) -> (ok: bool)
    ensures
        u8_queue_capacity(*final(q)) == u8_queue_capacity(*old(q)),
        u8_queue_elems(*old(q)).len() < u8_queue_capacity(*old(q)) ==> ok
            && u8_queue_elems(*final(q)) == u8_queue_elems(*old(q)).push(value),
        u8_queue_elems(*old(q)).len() >= u8_queue_capacity(*old(q)) ==> !ok
            && u8_queue_elems(*final(q)) == u8_queue_elems(*old(q)),
{
    q.push(value).is_ok()
}

/// Relies on `ArrayQueue::pop`; see `u64_queue_pop`.
#[verifier::external_body]
pub(crate) fn u8_queue_pop(q: &mut ArrayQueue<u8>) -> (r: Option<u8>)
    ensures
        u8_queue_capacity(*final(q)) == u8_queue_capacity(*old(q)),
        u8_queue_elems(*old(q)).len() == 0 ==> r is None
            && u8_queue_elems(*final(q)) == u8_queue_elems(*old(q)),
        u8_queue_elems(*old(q)).len() > 0 ==> r == Some(u8_queue_elems(*old(q))[0])
            && u8_queue_elems(*final(q)) == u8_queue_elems(*old(q)).skip(1),
{
    q.pop()
}

/// Relies on `ArrayQueue::len`. Exact here because the queue is owned
/// exclusively.
#[verifier::external_body]
pub(crate) fn u8_queue_len(q: &ArrayQueue<u8>) -> (n: usize)
    ensures
        n == u8_queue_elems(*q).len(),
{
    q.len()
}

} // verus!
