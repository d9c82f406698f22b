//! A baseline scheduler without wake signalling: tasks sit in a double-ended
//! queue and are polled round-robin with an inert wake handle, busy-spinning
//! until every task has completed.

use vstd::prelude::*;
use std::collections::VecDeque;
use crate::task::{Task, TaskId, Poll, Context};
use crate::task::executor::WakeHandle;
use crate::task::keyboard::ScancodeStream;

verus! {

/// Whether some task in `ts` carries the identifier `id`.
pub open spec fn holds_task(ts: Seq<Task>, id: u64) -> bool {
    exists|j: int| 0 <= j < ts.len() && ts[j]@ == id
}

pub struct SimpleExecutor {
    task_queue: VecDeque<Task>,
}

impl View for SimpleExecutor {
    type V = Seq<Task>;

    closed spec fn view(&self) -> Seq<Task> {
        self.task_queue@
    }
}

impl SimpleExecutor {
    pub fn new() -> (e: SimpleExecutor)
        ensures
            e@ == Seq::<Task>::empty(),
    {
        SimpleExecutor { task_queue: VecDeque::new() }
    }

    /// Appends a task; it will be polled on the next pass of `run`.
    pub fn spawn(&mut self, task: Task)
        ensures
            final(self)@ == old(self)@.push(task),
    {
        self.task_queue.push_back(task);
    }

    /// One scheduling step: polls the front task once, with an inert wake
    /// handle. A task that completes is dropped; one that suspends is
    /// re-queued at the back, under its identifier. Returns the poll result,
    /// or `None` on an empty queue.
    pub fn poll_front(&mut self, stream: &mut ScancodeStream) -> (r: Option<Poll>)
        requires
            old(stream).wf(),
        ensures
            final(stream).wf(),
            old(self)@.len() == 0 ==> r is None && final(self)@ == old(self)@,
            old(self)@.len() > 0 ==> {
                &&& r is Some
                &&& (r == Some(Poll::Ready) ==> final(self)@ == old(self)@.skip(1))
                &&& (r == Some(Poll::Pending) ==> {
                    &&& final(self)@.len() == old(self)@.len()
                    &&& final(self)@.subrange(0, old(self)@.len() - 1) == old(self)@.skip(1)
                    &&& final(self)@[old(self)@.len() - 1]@ == old(self)@[0]@
                })
            },
    {
        match self.task_queue.pop_front() {
            None => None,
            Some(mut task) => {
                let waker = dummy_waker();
                let cx = Context::from_waker(waker);
                match task.poll(&cx, stream) {
                    Poll::Ready => Some(Poll::Ready),
                    Poll::Pending => {
                        self.task_queue.push_back(task);
                        proof {
                            assert(self.task_queue@.subrange(
                                0,
                                old(self)@.len() - 1,
                            ) =~= old(self)@.skip(1));
                        }
                        Some(Poll::Pending)
                    },
                }
            },
        }
    }

    /// Makes one full scheduling pass: polls every task queued at entry
    /// exactly once, front to back, dropping the tasks that complete and
    /// re-queueing the pending ones at the back in their poll order. Wake
    /// notifications are ignored entirely — a task that suspends is simply
    /// polled again on the next pass — so the embedder busy-spins this until
    /// the queue is empty. The returned (ghost) index sequence witnesses
    /// that the kept tasks are, in order, a subsequence of those queued at
    /// entry.
    #[verifier::loop_isolation(false)]
    pub fn run(&mut self, stream: &mut ScancodeStream) -> (kept: Ghost<Seq<int>>)
        requires
            old(stream).wf(),
        ensures
            final(stream).wf(),
            final(self)@.len() <= old(self)@.len(),
            kept@.len() == final(self)@.len(),
            forall|m: int|
                0 <= m < kept@.len() ==> 0 <= #[trigger] kept@[m] < old(self)@.len()
                    && final(self)@[m]@ == old(self)@[kept@[m]]@,
            forall|m: int, m2: int| 0 <= m < m2 < kept@.len() ==> kept@[m] < kept@[m2],
    {
        let n = self.task_queue.len();
        let ghost pre: Seq<Task> = self.task_queue@;
        let ghost mut kept_ix: Seq<int> = Seq::empty();
        let mut i: usize = 0;
        while i < n
            invariant
                stream.wf(),
                i <= n,
                self.task_queue@.len() == n - i + kept_ix.len(),
                kept_ix.len() <= i,
                forall|m: int|
                    0 <= m < n - i ==> #[trigger] self.task_queue@[m] == pre[i + m],
                forall|m: int|
                    0 <= m < kept_ix.len() ==> 0 <= #[trigger] kept_ix[m] < i
                        && self.task_queue@[n - i + m]@ == pre[kept_ix[m]]@,
                forall|m: int, m2: int|
                    0 <= m < m2 < kept_ix.len() ==> kept_ix[m] < kept_ix[m2],
            decreases n - i,
        {
            let ghost before: Seq<Task> = self.task_queue@;
            let ghost kept_before: Seq<int> = kept_ix;
            let r = self.poll_front(stream);
            proof {
                assert(before[0] == pre[i as int]);
                if r == Some(Poll::Pending) {
                    kept_ix = kept_ix.push(i as int);
                    // the queue shifted left by one and regained the task at
                    // the back
                    assert forall|m: int| 0 <= m < before.len() - 1 implies #[trigger]
                        self.task_queue@[m] == before[m + 1] by {
                        assert(self.task_queue@.subrange(0, before.len() - 1)[m]
                            == before.skip(1)[m]);
                    }
                    assert(self.task_queue@[before.len() - 1]@ == pre[i as int]@);
                } else {
                    assert(r == Some(Poll::Ready));
                    assert(self.task_queue@ == before.skip(1));
                    assert forall|m: int| 0 <= m < before.len() - 1 implies #[trigger]
                        self.task_queue@[m] == before[m + 1] by {
                        assert(before.skip(1)[m] == before[m + 1]);
                    }
                }
                assert forall|m: int| 0 <= m < n - (i + 1) implies #[trigger]
                    self.task_queue@[m] == pre[(i + 1) + m] by {
                    assert(self.task_queue@[m] == before[m + 1]);
                    assert(before[m + 1] == pre[i + m + 1]);
                }
                assert forall|m: int|
                    0 <= m < kept_ix.len() implies 0 <= #[trigger] kept_ix[m] < i + 1
                        && self.task_queue@[n - (i + 1) + m]@ == pre[kept_ix[m]]@ by {
                    if m < kept_before.len() {
                        assert(kept_ix[m] == kept_before[m]);
                        assert(self.task_queue@[n - (i + 1) + m] == before[n - i + m]);
                        assert(before[n - i + m]@ == pre[kept_before[m]]@);
                    } else {
                        assert(kept_ix[m] == i as int);
                        assert(n - (i + 1) + m == before.len() - 1);
                    }
                }
            }
            i = i + 1;
        }
        Ghost(kept_ix)
    }
}

/// An inert wake handle: it is bound to an identifier that no allocator ever
/// issues, so even if a computation registers it somewhere and a delivery
/// invokes it, the pushed identifier matches no live task and is skipped.
fn dummy_waker() -> (w: WakeHandle)
    ensures
        w@ == u64::MAX,
{
    WakeHandle::new(TaskId::from_raw(u64::MAX))
}

} // verus!
