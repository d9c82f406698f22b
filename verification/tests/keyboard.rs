use std::cell::RefCell;
use std::rc::Rc;

use my_os::task::executor::{Executor, WakeHandle};
use my_os::task::keyboard::{
    add_scancode, DeliverStatus, KeyOutput, KeypressDecoder, KeypressTask, ScancodeStream,
    StreamPoll, WakerRegister, SCANCODE_QUEUE_CAPACITY,
};
use my_os::task::{Computation, Context, Poll, Task, TaskId, TaskIdAllocator};

fn test_context(ids: &mut TaskIdAllocator) -> (TaskId, Context) {
    let id = TaskId::new(ids);
    (id, Context::from_waker(WakeHandle::new(id)))
}

#[test]
fn channel_overflow_drops_new_bytes_not_old_ones() {
    let mut ids = TaskIdAllocator::new();
    let mut executor = Executor::new();
    let mut stream = ScancodeStream::new();
    let mut dropped = 0u32;
    // push one byte more than the channel holds
    for i in 0..(SCANCODE_QUEUE_CAPACITY as u32 + 1) {
        match add_scancode((i % 251) as u8, &mut stream, &mut executor) {
            DeliverStatus::Delivered => {}
            DeliverStatus::Dropped => dropped += 1,
        }
    }
    // exactly one reported drop, and the oldest bytes all survived in order
    assert_eq!(dropped, 1);
    assert_eq!(stream.buffered(), SCANCODE_QUEUE_CAPACITY);
    let (_, cx) = test_context(&mut ids);
    for i in 0..SCANCODE_QUEUE_CAPACITY as u32 {
        assert_eq!(stream.poll_next(&cx), StreamPoll::Ready((i % 251) as u8));
    }
    assert_eq!(stream.poll_next(&cx), StreamPoll::Pending);
}

#[test]
fn pending_poll_arms_wakeup_and_delivery_reenqueues() {
    let mut ids = TaskIdAllocator::new();
    let mut executor = Executor::new();
    let mut stream = ScancodeStream::new();
    let (id, cx) = test_context(&mut ids);
    // consumer checks, finds nothing, arms its wakeup and suspends
    assert_eq!(stream.poll_next(&cx), StreamPoll::Pending);
    // a delivery after the registration both buffers the byte and re-enqueues
    // exactly that consumer: the wake signalled after the double-check is
    // never lost
    assert_eq!(add_scancode(0x1E, &mut stream, &mut executor), DeliverStatus::Delivered);
    assert_eq!(executor.ready_len(), 1);
    // the re-poll finds the byte without re-arming anything
    assert_eq!(stream.poll_next(&cx), StreamPoll::Ready(0x1E));
    // the registration was consumed by the wake: a second delivery wakes nobody
    assert_eq!(add_scancode(0x1F, &mut stream, &mut executor), DeliverStatus::Delivered);
    assert_eq!(executor.ready_len(), 1);
    let _ = id;
}

#[test]
fn waker_register_is_single_slot() {
    let mut ids = TaskIdAllocator::new();
    let a = WakeHandle::new(TaskId::new(&mut ids));
    let b = WakeHandle::new(TaskId::new(&mut ids));
    let mut register = WakerRegister::new();
    assert!(register.take().is_none());
    register.register(a);
    // last registration wins
    register.register(b);
    let taken = register.take().expect("a handle was registered");
    let mut queue = my_os::task::executor::ReadyQueue::new(4);
    taken.wake(&mut queue);
    assert_eq!(queue.pop().map(|id| id.as_u64()), Some(1));
    assert!(register.take().is_none());
}

#[test]
fn scancode_for_a_decodes_to_unicode_a() {
    let mut decoder = KeypressDecoder::new();
    // 0x1E is the press of the 'a' key in scancode set 1
    assert_eq!(decoder.decode(0x1E), Some(KeyOutput::Unicode('a')));
    // the release (0x80 | 0x1E) produces no further character
    assert_eq!(decoder.decode(0x9E), None);
}

#[test]
fn keypress_task_collects_delivered_byte() {
    let mut ids = TaskIdAllocator::new();
    let mut executor = Executor::new();
    let mut stream = ScancodeStream::new();
    let (_, cx) = test_context(&mut ids);
    let mut task = KeypressTask::new();
    // first poll: nothing buffered, the task suspends with its wakeup armed
    assert_eq!(task.poll(&cx, &mut stream), Poll::Pending);
    assert!(task.printed().is_empty());
    assert_eq!(add_scancode(0x1E, &mut stream, &mut executor), DeliverStatus::Delivered);
    // the wake re-enqueued the polling task; it resumes and consumes the byte
    assert_eq!(executor.ready_len(), 1);
    assert_eq!(task.poll(&cx, &mut stream), Poll::Pending);
    assert_eq!(task.printed().as_slice(), &[KeyOutput::Unicode('a')]);
}

/// Decodes scancodes into a shared string, as a spawned consumer of the
/// stream: the test-side analogue of a keypress-printing task.
struct EchoKeys {
    decoder: KeypressDecoder,
    out: Rc<RefCell<String>>,
}

impl Computation for EchoKeys {
    fn poll(&mut self, cx: &Context, stream: &mut ScancodeStream) -> Poll {
        loop {
            match stream.poll_next(cx) {
                StreamPoll::Ready(scancode) => {
                    if let Some(KeyOutput::Unicode(c)) = self.decoder.decode(scancode) {
                        self.out.borrow_mut().push(c);
                    }
                }
                StreamPoll::Pending => return Poll::Pending,
            }
        }
    }
}

#[test]
fn scenario_suspended_task_resumes_on_delivery() {
    let mut ids = TaskIdAllocator::new();
    let mut executor = Executor::new();
    let mut stream = ScancodeStream::new();
    let out = Rc::new(RefCell::new(String::new()));
    let task = Task::new(
        EchoKeys { decoder: KeypressDecoder::new(), out: out.clone() },
        &mut ids,
    );
    executor.spawn(task);
    // first drain: the task suspends, pending an external byte
    executor.run_ready_tasks(&mut stream);
    assert_eq!(executor.task_count(), 1);
    assert_eq!(out.borrow().as_str(), "");
    // one keyboard interrupt delivers the 'a' scancode and wakes the task
    assert_eq!(add_scancode(0x1E, &mut stream, &mut executor), DeliverStatus::Delivered);
    assert_eq!(executor.ready_len(), 1);
    executor.run_ready_tasks(&mut stream);
    // the task consumed exactly that byte, observable as one character
    assert_eq!(out.borrow().as_str(), "a");
}

#[test]
fn delivery_without_consumer_just_buffers() {
    let mut executor = Executor::new();
    let mut stream = ScancodeStream::new();
    assert_eq!(add_scancode(0x10, &mut stream, &mut executor), DeliverStatus::Delivered);
    assert_eq!(stream.buffered(), 1);
    assert_eq!(executor.ready_len(), 0);
}

#[test]
fn absorb_keeps_every_completed_key() {
    let mut task = KeypressTask::new();
    task.absorb(None);
    assert!(task.printed().is_empty());
    task.absorb(Some(KeyOutput::Unicode('h')));
    task.absorb(None);
    task.absorb(Some(KeyOutput::RawKey(97)));
    assert_eq!(
        task.printed().as_slice(),
        &[KeyOutput::Unicode('h'), KeyOutput::RawKey(97)]
    );
}
