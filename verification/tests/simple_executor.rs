use std::cell::RefCell;
use std::rc::Rc;

use my_os::task::keyboard::ScancodeStream;
use my_os::task::simple_executor::SimpleExecutor;
use my_os::task::{Computation, Context, Poll, Task, TaskIdAllocator};

/// Pending for `left` polls, then done; records every poll.
struct Stepper {
    left: u32,
    log: Rc<RefCell<Vec<u32>>>,
    tag: u32,
}

impl Computation for Stepper {
    fn poll(&mut self, _cx: &Context, _stream: &mut ScancodeStream) -> Poll {
        self.log.borrow_mut().push(self.tag);
        if self.left == 0 {
            Poll::Ready
        } else {
            self.left -= 1;
            Poll::Pending
        }
    }
}

#[test]
fn run_polls_each_task_once_per_pass() {
    let mut ids = TaskIdAllocator::new();
    let mut executor = SimpleExecutor::new();
    let mut stream = ScancodeStream::new();
    let log = Rc::new(RefCell::new(Vec::new()));
    executor.spawn(Task::new(Stepper { left: 0, log: log.clone(), tag: 1 }, &mut ids));
    executor.spawn(Task::new(Stepper { left: 2, log: log.clone(), tag: 2 }, &mut ids));
    // pass 1: task 1 completes, task 2 suspends and is kept
    executor.run(&mut stream);
    assert_eq!(log.borrow().as_slice(), &[1, 2]);
    // pass 2: only task 2 is left
    executor.run(&mut stream);
    assert_eq!(log.borrow().as_slice(), &[1, 2, 2]);
    // pass 3: task 2 completes; later passes poll nothing
    executor.run(&mut stream);
    executor.run(&mut stream);
    assert_eq!(log.borrow().as_slice(), &[1, 2, 2, 2]);
}

#[test]
fn pending_tasks_keep_their_order() {
    let mut ids = TaskIdAllocator::new();
    let mut executor = SimpleExecutor::new();
    let mut stream = ScancodeStream::new();
    let log = Rc::new(RefCell::new(Vec::new()));
    for tag in 1..=3u32 {
        executor.spawn(Task::new(Stepper { left: 1, log: log.clone(), tag }, &mut ids));
    }
    executor.run(&mut stream);
    executor.run(&mut stream);
    assert_eq!(log.borrow().as_slice(), &[1, 2, 3, 1, 2, 3]);
}

#[test]
fn poll_front_drops_on_ready_and_requeues_on_pending() {
    let mut ids = TaskIdAllocator::new();
    let mut executor = SimpleExecutor::new();
    let mut stream = ScancodeStream::new();
    let log = Rc::new(RefCell::new(Vec::new()));
    executor.spawn(Task::new(Stepper { left: 1, log: log.clone(), tag: 1 }, &mut ids));
    executor.spawn(Task::new(Stepper { left: 0, log: log.clone(), tag: 2 }, &mut ids));
    // front task suspends: re-queued at the back
    assert_eq!(executor.poll_front(&mut stream), Some(Poll::Pending));
    // next front task completes: dropped
    assert_eq!(executor.poll_front(&mut stream), Some(Poll::Ready));
    // the re-queued task completes on its second poll
    assert_eq!(executor.poll_front(&mut stream), Some(Poll::Ready));
    assert_eq!(executor.poll_front(&mut stream), None);
    assert_eq!(log.borrow().as_slice(), &[1, 2, 1]);
}
