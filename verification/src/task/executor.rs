//! The scheduler: owns the set of live tasks, a bounded ready-queue of task
//! identifiers, and a cache of per-task wake handles, and drives tasks to
//! completion.

use vstd::prelude::*;
use std::collections::BTreeMap;
use crossbeam_queue::ArrayQueue;
use crate::queue::{
    u64_queue_elems, u64_queue_capacity, u64_queue_new, u64_queue_push, u64_queue_pop,
    u64_queue_len, u64_queue_is_empty,
};
use crate::task::{Task, TaskId, Poll, Context};
use crate::task::keyboard::ScancodeStream;

verus! {

broadcast use vstd::laws_cmp::group_laws_cmp;

/// Capacity of the ready-queue. Generous enough that legitimate wake bursts
/// never overflow it: overflowing it is a fatal misconfiguration, not a
/// recoverable condition.
pub const READY_QUEUE_CAPACITY: usize = 100;

/// The bounded queue of task identifiers that are eligible for the next poll.
/// Backed by a lock-free ring buffer so that wake handles may push into it
/// from interrupt context, where blocking and allocation are forbidden.
pub struct ReadyQueue {
    queue: ArrayQueue<u64>,
}

impl View for ReadyQueue {
    type V = Seq<u64>;

    closed spec fn view(&self) -> Seq<u64> {
        u64_queue_elems(self.queue)
    }
}

impl ReadyQueue {
    /// The capacity fixed at construction.
    pub closed spec fn capacity(&self) -> nat {
        u64_queue_capacity(self.queue)
    }

    pub fn new(capacity: usize) -> (q: ReadyQueue)
        requires
            0 < capacity <= 0x1000_0000,
        ensures
            q@ == Seq::<u64>::empty(),
            q.capacity() == capacity as nat,
    {
        ReadyQueue { queue: u64_queue_new(capacity) }
    }

    pub(crate) fn push(&mut self, id: TaskId)
        requires
            old(self)@.len() < old(self).capacity(),
        ensures
            final(self)@ == old(self)@.push(id@),
            final(self).capacity() == old(self).capacity(),
    {
        let _ok = u64_queue_push(&mut self.queue, id.as_u64());
    }

    pub fn pop(&mut self) -> (r: Option<TaskId>)
        ensures
            final(self).capacity() == old(self).capacity(),
            old(self)@.len() == 0 ==> r is None && final(self)@ == old(self)@,
            old(self)@.len() > 0 ==> {
                &&& r matches Some(id) && id@ == old(self)@[0]
                &&& final(self)@ == old(self)@.skip(1)
            },
    {
        match u64_queue_pop(&mut self.queue) {
            Some(raw) => Some(TaskId::from_raw(raw)),
            None => None,
        }
    }

    pub fn len(&self) -> (n: usize)
        ensures
            n == self@.len(),
    {
        u64_queue_len(&self.queue)
    }

    pub fn is_empty(&self) -> (r: bool)
        ensures
            r == (self@.len() == 0),
    {
        u64_queue_is_empty(&self.queue)
    }
}

/// A shareable wake handle, bound to one task's identifier: invoking it
/// re-admits that task to the ready-queue. Handles are freely copied, so a
/// suspension point can hold one while the scheduler keeps another; both
/// invocation modes, consuming and by-reference, have identical observable
/// effect.
#[derive(Debug, Clone, Copy)]
pub struct WakeHandle {
    task_id: TaskId,
}

impl View for WakeHandle {
    type V = u64;

    closed spec fn view(&self) -> u64 {
        self.task_id@
    }
}

impl WakeHandle {
    pub fn new(task_id: TaskId) -> (h: WakeHandle)
        ensures
            h@ == task_id@,
    {
        WakeHandle { task_id }
    }

    /// The shared effect of both invocation modes: push the bound identifier.
    /// A full ready-queue is a fatal misconfiguration, ruled out up front.
    fn wake_task(&self, task_queue: &mut ReadyQueue)
        requires
            old(task_queue)@.len() < old(task_queue).capacity(),
        ensures
            final(task_queue)@ == old(task_queue)@.push(self@),
            final(task_queue).capacity() == old(task_queue).capacity(),
    {
        task_queue.push(self.task_id)
    }

    /// Consuming invocation.
    pub fn wake(self, task_queue: &mut ReadyQueue)
        requires
            old(task_queue)@.len() < old(task_queue).capacity(),
        ensures
            final(task_queue)@ == old(task_queue)@.push(self@),
            final(task_queue).capacity() == old(task_queue).capacity(),
    {
        self.wake_task(task_queue)
    }

    /// By-reference invocation; the handle stays usable. The effect is the
    /// same as the consuming mode: the two differ only in ownership cost.
    pub fn wake_by_ref(&self, task_queue: &mut ReadyQueue)
        requires
            old(task_queue)@.len() < old(task_queue).capacity(),
        ensures
            final(task_queue)@ == old(task_queue)@.push(self@),
            final(task_queue).capacity() == old(task_queue).capacity(),
    {
        self.wake_task(task_queue)
    }
}

/// The abstract scheduler state: which task identifiers are live, what the
/// ready-queue holds (oldest first), which identifiers have a cached wake
/// handle, and how many wake handles have ever been constructed.
pub ghost struct ExecutorView {
    pub tasks: Set<u64>,
    pub ready: Seq<u64>,
    pub wakers: Set<u64>,
    pub handles_created: u64,
}

/// What the scheduler's idle path should do, decided while interrupt
/// delivery is masked.
#[derive(Debug, Clone, Copy, PartialEq, Eq, Structural)]
pub enum IdleDecision {
    /// No task is ready: park the CPU until the next interrupt, re-enabling
    /// delivery atomically with the halt.
    Halt,
    /// Work remains: re-enable delivery and keep scheduling.
    Continue,
}

pub struct Executor {
    tasks: BTreeMap<u64, Task>,
    task_queue: ReadyQueue,
    waker_cache: BTreeMap<u64, WakeHandle>,
    handles_created: u64,
}

impl View for Executor {
    type V = ExecutorView;

    closed spec fn view(&self) -> ExecutorView {
        ExecutorView {
            tasks: self.tasks@.dom(),
            ready: self.task_queue@,
            wakers: self.waker_cache@.dom(),
            handles_created: self.handles_created,
        }
    }
}

impl Executor {
    /// Well-formedness: the ready-queue has the configured capacity, every
    /// cached wake handle belongs to a live task and is bound to the
    /// identifier it is cached under, and every task sits under its own
    /// identifier.
    pub closed spec fn wf(&self) -> bool {
        &&& self.task_queue.capacity() == READY_QUEUE_CAPACITY as nat
        &&& forall|id: u64| #[trigger]
            self.waker_cache@.dom().contains(id) ==> self.tasks@.dom().contains(id)
        &&& forall|id: u64| #[trigger]
            self.waker_cache@.dom().contains(id) ==> self.waker_cache@[id]@ == id
        &&& forall|id: u64| #[trigger] self.tasks@.dom().contains(id) ==> self.tasks@[id]@ == id
    }

    pub fn new() -> (e: Executor)
        ensures
            e.wf(),
            e@.tasks == Set::<u64>::empty(),
            e@.ready == Seq::<u64>::empty(),
            e@.wakers == Set::<u64>::empty(),
            e@.handles_created == 0,
    {
        let e = Executor {
            tasks: BTreeMap::new(),
            task_queue: ReadyQueue::new(READY_QUEUE_CAPACITY),
            waker_cache: BTreeMap::new(),
            handles_created: 0,
        };
        proof {
            assert(e@.tasks =~= Set::<u64>::empty());
            assert(e@.wakers =~= Set::<u64>::empty());
        }
        e
    }

    /// Hands a task to the scheduler and marks it ready for a first poll.
    ///
    /// A duplicate identifier would mean the identifier allocator's
    /// uniqueness guarantee was broken, and a full ready-queue would mean its
    /// capacity was misconfigured; both are structural bugs, fatal by design,
    /// so the caller must rule them out.
    pub fn spawn(&mut self, task: Task)
        requires
            old(self).wf(),
            !old(self)@.tasks.contains(task@),
            old(self)@.ready.len() < READY_QUEUE_CAPACITY as int,
        ensures
            final(self).wf(),
            final(self)@.tasks == old(self)@.tasks.insert(task@),
            final(self)@.ready == old(self)@.ready.push(task@),
            final(self)@.wakers == old(self)@.wakers,
            final(self)@.handles_created == old(self)@.handles_created,
    {
        let id = task.id();
        let _prev = self.tasks.insert(id.as_u64(), task);
        self.task_queue.push(id);
    }

    /// Re-admits the task bound to `handle` to the ready-queue: the bridge by
    /// which completion callbacks re-enter the scheduler's vocabulary. A full
    /// ready-queue is fatal by design, so the caller must leave room.
    pub fn wake(&mut self, handle: WakeHandle)
        requires
            old(self).wf(),
            old(self)@.ready.len() < READY_QUEUE_CAPACITY as int,
        ensures
            final(self).wf(),
            final(self)@.tasks == old(self)@.tasks,
            final(self)@.ready == old(self)@.ready.push(handle@),
            final(self)@.wakers == old(self)@.wakers,
            final(self)@.handles_created == old(self)@.handles_created,
    {
        handle.wake(&mut self.task_queue);
    }

    /// One drain step: pops the next ready identifier and settles it.
    ///
    /// Returns `None` when the ready-queue is empty (the drain is complete),
    /// otherwise `Some((id, outcome))` for the popped identifier. An
    /// `outcome` of `None` means no task exists under that identifier any
    /// more — the entry was a stale duplicate for an already-completed task,
    /// skipped silently, with nothing else changed. Otherwise the task was
    /// polled, with a context built from its cached wake handle (constructed
    /// and cached on the task's first poll, reused ever after): `Ready`
    /// destroys the task together with its cached handle — the only
    /// destruction path for a task — and `Pending` retains both, the task
    /// staying owned by the scheduler until a future wake re-enqueues it.
    pub fn poll_one(&mut self, stream: &mut ScancodeStream) -> (r: Option<(TaskId, Option<Poll>)>)
        requires
            old(self).wf(),
            old(stream).wf(),
        ensures
            final(self).wf(),
            final(stream).wf(),
            old(self)@.ready.len() == 0 ==> r is None && final(self)@ == old(self)@
                && final(stream)@ == old(stream)@,
            old(self)@.ready.len() > 0 ==> {
                &&& r matches Some((id, outcome)) && {
                &&& id@ == old(self)@.ready[0]
                &&& final(self)@.ready == old(self)@.ready.skip(1)
                &&& old(self)@.handles_created <= final(self)@.handles_created
                    <= old(self)@.handles_created + 1
                &&& match outcome {
                    None => {
                        // a stale entry: no such task; nothing else changes
                        &&& !old(self)@.tasks.contains(id@)
                        &&& final(self)@.tasks == old(self)@.tasks
                        &&& final(self)@.wakers == old(self)@.wakers
                        &&& final(self)@.handles_created == old(self)@.handles_created
                        &&& final(stream)@ == old(stream)@
                    },
                    Some(Poll::Ready) => {
                        // completed: removed from both maps
                        &&& old(self)@.tasks.contains(id@)
                        &&& final(self)@.tasks == old(self)@.tasks.remove(id@)
                        &&& final(self)@.wakers == old(self)@.wakers.remove(id@)
                        &&& (old(self)@.wakers.contains(id@) ==> final(self)@.handles_created
                            == old(self)@.handles_created)
                    },
                    Some(Poll::Pending) => {
                        // suspended: the task and its cached handle are kept
                        &&& old(self)@.tasks.contains(id@)
                        &&& final(self)@.tasks == old(self)@.tasks
                        &&& final(self)@.wakers == old(self)@.wakers.insert(id@)
                        &&& (old(self)@.wakers.contains(id@) ==> final(self)@.handles_created
                            == old(self)@.handles_created)
                    },
                }
                }
            },
    {
        match self.task_queue.pop() {
            None => None,
            Some(task_id) => {
                let idu = task_id.as_u64();
                match self.tasks.remove(&idu) {
                    None => Some((task_id, None)),
                    Some(mut task) => {
                        let waker = match self.waker_cache.get(&idu) {
                            Some(w) => *w,
                            None => {
                                let w = WakeHandle::new(task_id);
                                let _prev = self.waker_cache.insert(idu, w);
                                // the counter is saturating only as a proof
                                // formality: one construction per task life
                                // never reaches the limit
                                if self.handles_created < u64::MAX {
                                    self.handles_created = self.handles_created + 1;
                                }
                                w
                            },
                        };
                        let cx = Context::from_waker(waker);
                        match task.poll(&cx, stream) {
                            Poll::Ready => {
                                let _prev = self.waker_cache.remove(&idu);
                                proof {
                                    assert(self.tasks@.dom() =~= old(self).tasks@.dom().remove(
                                        idu,
                                    ));
                                    assert(self.waker_cache@.dom()
                                        =~= old(self).waker_cache@.dom().remove(idu));
                                }
                                Some((task_id, Some(Poll::Ready)))
                            },
                            Poll::Pending => {
                                let _prev = self.tasks.insert(idu, task);
                                proof {
                                    assert(self.tasks@.dom() =~= old(self).tasks@.dom());
                                    assert(self.waker_cache@.dom()
                                        =~= old(self).waker_cache@.dom().insert(idu));
                                }
                                Some((task_id, Some(Poll::Pending)))
                            },
                        }
                    },
                }
            },
        }
    }

    /// Drains the ready-queue: repeats `poll_one` until the queue is empty.
    ///
    /// Each popped identifier is settled as `poll_one` states it — a stale
    /// entry skipped, a completed task destroyed with its cached handle, a
    /// pending task retained with its handle.
    #[verifier::loop_isolation(false)]
    pub fn run_ready_tasks(&mut self, stream: &mut ScancodeStream)
        requires
            old(self).wf(),
            old(stream).wf(),
        ensures
            final(self).wf(),
            final(stream).wf(),
            final(self)@.ready.len() == 0,
            // tasks are only ever removed by the drain, never created
            forall|id: u64| #[trigger]
                final(self)@.tasks.contains(id) ==> old(self)@.tasks.contains(id),
            // only a task that was ready can have completed
            forall|id: u64|
                old(self)@.tasks.contains(id) && !old(self)@.ready.contains(id)
                    ==> #[trigger] final(self)@.tasks.contains(id),
            // a cached wake handle survives as long as its task does
            forall|id: u64|
                old(self)@.wakers.contains(id) && #[trigger] final(self)@.tasks.contains(id)
                    ==> final(self)@.wakers.contains(id),
            // a completed task loses its cache entry with it
            forall|id: u64| #[trigger]
                final(self)@.wakers.contains(id) ==> final(self)@.tasks.contains(id),
            // wake handles are only ever constructed for tasks that were ready
            forall|id: u64| #[trigger]
                final(self)@.wakers.contains(id)
                    ==> old(self)@.wakers.contains(id) || old(self)@.ready.contains(id),
            // the construction counter grows by at most one per ready entry
            old(self)@.handles_created <= final(self)@.handles_created,
            final(self)@.handles_created <= old(self)@.handles_created + old(self)@.ready.len(),
            // and not at all when every ready live task is already cached:
            // a task's handle is constructed at most once in its lifetime
            (forall|id: u64|
                old(self)@.ready.contains(id) && old(self)@.tasks.contains(id)
                    ==> #[trigger] old(self)@.wakers.contains(id))
                ==> final(self)@.handles_created == old(self)@.handles_created,
    {
        let ghost pre: ExecutorView = self@;
        let ghost mut k: int = 0;
        proof {
            assert(pre.ready.skip(0) =~= pre.ready);
        }
        loop
            invariant
                self.wf(),
                stream.wf(),
                0 <= k <= pre.ready.len(),
                self@.ready == pre.ready.skip(k),
                forall|id: u64| #[trigger] self@.tasks.contains(id) ==> pre.tasks.contains(id),
                forall|id: u64|
                    pre.tasks.contains(id) && !pre.ready.contains(id)
                        ==> #[trigger] self@.tasks.contains(id),
                forall|id: u64|
                    pre.wakers.contains(id) && #[trigger] self@.tasks.contains(id)
                        ==> self@.wakers.contains(id),
                forall|id: u64| #[trigger]
                    self@.wakers.contains(id) ==> self@.tasks.contains(id),
                forall|id: u64| #[trigger]
                    self@.wakers.contains(id) ==> pre.wakers.contains(id) || pre.ready.contains(
                        id,
                    ),
                pre.handles_created <= self@.handles_created,
                self@.handles_created <= pre.handles_created + k,
                (forall|id: u64|
                    pre.ready.contains(id) && pre.tasks.contains(id) ==> #[trigger]
                        pre.wakers.contains(id)) ==> self@.handles_created
                    == pre.handles_created,
            decreases self@.ready.len(),
        {
            let ghost at_entry: ExecutorView = self@;
            match self.poll_one(stream) {
                None => {
                    break;
                },
                Some(_settled) => {
                    proof {
                        assert(pre.ready[k] == at_entry.ready[0]);
                        assert(pre.ready.contains(pre.ready[k]));
                        assert(pre.ready.skip(k).skip(1) =~= pre.ready.skip(k + 1));
                        k = k + 1;
                    }
                },
            }
        }
    }

    /// The idle path of the scheduling loop, to be consulted with interrupt
    /// delivery masked: the caller masks delivery, asks for the decision, and
    /// then either parks the CPU with the platform's halt-until-interrupt
    /// primitive (`Halt`, which must re-enable delivery atomically with the
    /// halt) or merely re-enables delivery and continues (`Continue`).
    /// Deciding under masked delivery closes the race in which a wake lands
    /// between "queue observed empty" and the halt; the scheduler never halts
    /// while a task is ready.
    pub fn sleep_if_idle(&self) -> (d: IdleDecision)
        ensures
            (d == IdleDecision::Halt) <==> self@.ready.len() == 0,
    {
        if self.task_queue.is_empty() {
            IdleDecision::Halt
        } else {
            IdleDecision::Continue
        }
    }

    /// How many tasks the scheduler currently owns.
    pub fn task_count(&self) -> (n: usize)
        ensures
            n == self@.tasks.len(),
    {
        self.tasks.len()
    }

    /// How many wake handles are currently cached.
    pub fn cached_waker_count(&self) -> (n: usize)
        ensures
            n == self@.wakers.len(),
    {
        self.waker_cache.len()
    }

    /// How many identifiers the ready-queue currently holds.
    pub fn ready_len(&self) -> (n: usize)
        ensures
            n == self@.ready.len(),
    {
        self.task_queue.len()
    }

    /// How many wake handles have ever been constructed by this scheduler:
    /// at most one per task over that task's entire life.
    pub fn handles_created(&self) -> (n: u64)
        ensures
            n == self@.handles_created,
    {
        self.handles_created
    }
}

} // verus!
