//! Suspendable computations ("tasks") and their identifiers.
//!
//! A task owns one heap-resident computation that produces no value and runs
//! only for its side effects. Resuming it with `poll` either finishes it
//! (`Poll::Ready`) or suspends it awaiting a later wake signal
//! (`Poll::Pending`).

use vstd::prelude::*;
use crate::task::executor::WakeHandle;
use crate::task::keyboard::ScancodeStream;

pub mod executor;
pub mod keyboard;
pub mod simple_executor;

verus! {

/// An opaque, totally ordered 64-bit task identifier. Identifiers are issued
/// by a monotonically increasing counter, so an allocator never issues the
/// same identifier twice.
#[derive(Debug, Clone, Copy, PartialEq, Eq, Structural)]
pub struct TaskId(u64);

impl View for TaskId {
    type V = u64;

    closed spec fn view(&self) -> u64 {
        self.0
    }
}

impl TaskId {
    /// Issues a fresh identifier: the allocator's current counter value,
    /// which is then advanced, so no identifier is ever issued twice by the
    /// same allocator.
    pub fn new(ids: &mut TaskIdAllocator) -> (id: TaskId)
        requires
            old(ids)@ < u64::MAX,
        ensures
            id@ == old(ids)@,
            final(ids)@ == old(ids)@ + 1,
    {
        let id = TaskId(ids.next_id);
        ids.next_id = ids.next_id + 1;
        id
    }

    /// The raw counter value behind this identifier.
    pub fn as_u64(&self) -> (raw: u64)
        ensures
            raw == self@,
    {
        self.0
    }

    pub(crate) fn from_raw(raw: u64) -> (id: TaskId)
        ensures
            id@ == raw,
    {
        TaskId(raw)
    }
}

/// Issues process-wide unique task identifiers from an atomically advancing
/// counter. The process holds exactly one allocator, so every identifier it
/// issues is distinct from every other.
pub struct TaskIdAllocator {
    next_id: u64,
}

impl View for TaskIdAllocator {
    type V = u64;

    closed spec fn view(&self) -> u64 {
        self.next_id
    }
}

impl TaskIdAllocator {
    /// A fresh allocator, counting from zero.
    pub fn new() -> (ids: TaskIdAllocator)
        ensures
            ids@ == 0,
    {
        TaskIdAllocator { next_id: 0 }
    }
}

/// The outcome of resuming a computation: it either finished or suspended
/// awaiting a future event.
#[derive(Debug, Clone, Copy, PartialEq, Eq, Structural)]
pub enum Poll {
    Ready,
    Pending,
}

/// The notification context handed to a computation when it is polled: the
/// wake handle under which the computation may arrange to be re-polled, by
/// registering it at a suspension point.
pub struct Context {
    waker: WakeHandle,
}

impl View for Context {
    type V = u64;

    closed spec fn view(&self) -> u64 {
        self.waker@
    }
}

impl Context {
    pub fn from_waker(waker: WakeHandle) -> (cx: Context)
        ensures
            cx@ == waker@,
    {
        Context { waker }
    }

    /// The wake handle of the task being polled.
    pub fn waker(&self) -> (w: WakeHandle)
        ensures
            w@ == self@,
    {
        self.waker
    }
}

/// A suspendable computation: resumed with `poll`, it runs until it either
/// completes or suspends awaiting a wake signal. A computation that suspends
/// is responsible for arranging its own wakeup first, by registering the
/// context's wake handle at the suspension point it blocks on.
///
/// The scancode stream is threaded through `poll` explicitly: it is the one
/// suspension point this kernel offers, shared between the computations and
/// the interrupt delivery path.
pub trait Computation {
    fn poll(&mut self, cx: &Context, stream: &mut ScancodeStream) -> (p: Poll)
        requires
            old(stream).wf(),
        ensures
            final(stream).wf(),
    ;
}

/// One live task: a fresh identifier paired with exclusive ownership of a
/// heap-resident, type-erased computation. The computation stays at its heap
/// address for the task's whole life; it is only ever resumed through `poll`,
/// and only by the executor that owns the task.
pub struct Task {
    id: TaskId,
    computation: Box<dyn Computation>,
}

impl View for Task {
    type V = u64;

    closed spec fn view(&self) -> u64 {
        self.id@
    }
}

impl Task {
    /// Wraps a computation into a task, moving it to the heap and assigning
    /// it a fresh identifier.
    pub fn new<C: Computation + 'static>(computation: C, ids: &mut TaskIdAllocator) -> (t: Task)
        requires
            old(ids)@ < u64::MAX,
        ensures
            t@ == old(ids)@,
            final(ids)@ == old(ids)@ + 1,
    {
        Task { id: TaskId::new(ids), computation: Box::new(computation) }
    }

    /// The identifier assigned at creation.
    pub fn id(&self) -> (id: TaskId)
        ensures
            id@ == self@,
    {
        self.id
    }

    /// Resumes the computation. Only an executor may call this: polling a
    /// task out of turn, or from two places, would break the single-owner
    /// discipline.
    pub(crate) fn poll(&mut self, cx: &Context, stream: &mut ScancodeStream) -> (p: Poll)
        requires
            old(stream).wf(),
        ensures
            final(stream).wf(),
            final(self)@ == old(self)@,
    {
        self.computation.poll(cx, stream)
    }
}

} // verus!
