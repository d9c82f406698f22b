//! The interrupt-to-task signalling path: a bounded byte channel that an
//! interrupt handler can push scancodes into, a single-slot waker register,
//! and the stream adapter that consumes the channel from a suspendable
//! computation using double-check registration.

use vstd::prelude::*;
use crossbeam_queue::ArrayQueue;
use crate::queue::{u8_queue_elems, u8_queue_capacity, u8_queue_new, u8_queue_push, u8_queue_pop, u8_queue_len};
use crate::task::{Context, Poll};
use crate::task::executor::{Executor, ExecutorView, WakeHandle, READY_QUEUE_CAPACITY};

verus! {

/// Capacity of the scancode byte channel, fixed at construction.
pub const SCANCODE_QUEUE_CAPACITY: usize = 100;

/// Holds at most one pending wake handle. `register` overwrites any previous
/// handle — last registration wins, since only one live consumer of the
/// stream exists — and `take` removes the handle without invoking it, used
/// both by the delivery path (which then invokes it) and to discard a stale
/// registration once the awaited condition has already been satisfied.
pub struct WakerRegister {
    slot: Option<WakeHandle>,
}

impl View for WakerRegister {
    type V = Option<u64>;

    closed spec fn view(&self) -> Option<u64> {
        match self.slot {
            Some(h) => Some(h@),
            None => None,
        }
    }
}

impl WakerRegister {
    pub fn new() -> (r: WakerRegister)
        ensures
            r@ is None,
    {
        WakerRegister { slot: None }
    }

    /// Stores a handle, replacing any previously stored one.
    pub fn register(&mut self, handle: WakeHandle)
        ensures
            final(self)@ == Some(handle@),
    {
        self.slot = Some(handle);
    }

    /// Removes and returns the stored handle, if any, without invoking it.
    pub fn take(&mut self) -> (r: Option<WakeHandle>)
        ensures
            final(self)@ is None,
            old(self)@ matches Some(id) ==> r matches Some(h) && h@ == id,
            old(self)@ is None ==> r is None,
    {
        let r = self.slot;
        self.slot = None;
        r
    }
}

/// The abstract state of the stream: the bytes waiting in the channel,
/// oldest first, and the armed wake handle's task identifier, if any.
pub ghost struct StreamView {
    pub bytes: Seq<u8>,
    pub waker: Option<u64>,
}

/// The state a consumer leaves behind when its poll returns `Pending`: the
/// channel was observed empty and the consumer's wake handle is armed, so
/// any later delivery is guaranteed to re-enqueue it.
pub open spec fn pending_armed(s: StreamView, id: u64) -> bool {
    &&& s.bytes.len() == 0
    &&& s.waker == Some(id)
}

/// What a computation is handed back when it polls the stream: the oldest
/// buffered byte, or `Pending` with its wakeup armed. The stream is
/// conceptually infinite: it never reports an end.
#[derive(Debug, Clone, Copy, PartialEq, Eq, Structural)]
pub enum StreamPoll {
    Ready(u8),
    Pending,
}

/// Whether the delivery hook accepted a byte or had to drop it.
#[derive(Debug, Clone, Copy, PartialEq, Eq, Structural)]
pub enum DeliverStatus {
    /// The byte was queued; a registered consumer, if any, has been woken.
    Delivered,
    /// The channel was full; the byte was dropped, never overwritten over
    /// older ones. Losing one input byte is preferable to blocking or
    /// crashing in interrupt context.
    Dropped,
}

/// The scancode channel together with its waker register, exposed to
/// computations as a lazily produced sequence of bytes.
///
/// The channel is process-wide shared state between the interrupt delivery
/// hook and the single consumer: the embedder must construct at most one
/// stream and route `add_scancode` to that one — a second independent stream
/// would split consumption unpredictably.
pub struct ScancodeStream {
    queue: ArrayQueue<u8>,
    waker: WakerRegister,
}

impl View for ScancodeStream {
    type V = StreamView;

    closed spec fn view(&self) -> StreamView {
        StreamView { bytes: u8_queue_elems(self.queue), waker: self.waker@ }
    }
}

impl ScancodeStream {
    /// Well-formedness: the channel has the configured capacity and never
    /// holds more than it.
    pub closed spec fn wf(&self) -> bool {
        &&& u8_queue_capacity(self.queue) == SCANCODE_QUEUE_CAPACITY as nat
        &&& u8_queue_elems(self.queue).len() <= SCANCODE_QUEUE_CAPACITY as nat
    }

    pub fn new() -> (s: ScancodeStream)
        ensures
            s.wf(),
            s@.bytes == Seq::<u8>::empty(),
            s@.waker is None,
    {
        ScancodeStream { queue: u8_queue_new(SCANCODE_QUEUE_CAPACITY), waker: WakerRegister::new() }
    }

    /// Polls the stream for the next byte, using double-check registration:
    /// (1) try the channel; a waiting byte is returned without touching the
    /// register; (2) otherwise arm the register with the caller's wake
    /// handle; (3) try the channel once more — a push and wake may have
    /// slipped in between step 1 and step 2, in which case that wake saw no
    /// registration and no further wake would ever come; a byte found now is
    /// returned with the fresh registration discarded; (4) otherwise return
    /// `Pending`, now correctly armed: any later push-and-wake is guaranteed
    /// to observe the registration.
    pub fn poll_next(&mut self, cx: &Context) -> (r: StreamPoll)
        requires
            old(self).wf(),
        ensures
            final(self).wf(),
            old(self)@.bytes.len() > 0 ==> {
                &&& r == StreamPoll::Ready(old(self)@.bytes[0])
                &&& final(self)@.bytes == old(self)@.bytes.skip(1)
                &&& final(self)@.waker == old(self)@.waker
            },
            old(self)@.bytes.len() == 0 ==> {
                &&& r == StreamPoll::Pending
                &&& final(self)@.bytes == old(self)@.bytes
                &&& pending_armed(final(self)@, cx@)
            },
    {
        match u8_queue_pop(&mut self.queue) {
            Some(scancode) => StreamPoll::Ready(scancode),
            None => {
                self.waker.register(cx.waker());
                match u8_queue_pop(&mut self.queue) {
                    Some(scancode) => {
                        // the awaited byte is already here: no notification
                        // will be needed, so discard the fresh registration
                        let _stale = self.waker.take();
                        StreamPoll::Ready(scancode)
                    },
                    None => StreamPoll::Pending,
                }
            },
        }
    }

    /// How many bytes are currently buffered.
    pub fn buffered(&self) -> (n: usize)
        ensures
            n == self@.bytes.len(),
    {
        u8_queue_len(&self.queue)
    }
}

/// The interrupt delivery hook: invoked from the keyboard interrupt service
/// routine, once per received scancode, with interrupts masked. Pushes the
/// byte into the channel and, on success, wakes the registered consumer, if
/// any; on a full channel it reports the drop and continues. It neither
/// blocks nor allocates.
///
/// A wake against a full ready-queue would be a fatal capacity
/// misconfiguration, so the caller must leave room whenever a consumer is
/// registered.
pub fn add_scancode(scancode: u8, stream: &mut ScancodeStream, executor: &mut Executor) -> (status:
    DeliverStatus)
    requires
        old(stream).wf(),
        old(executor).wf(),
        old(stream)@.waker is Some && old(stream)@.bytes.len() < SCANCODE_QUEUE_CAPACITY as int
            ==> old(executor)@.ready.len() < READY_QUEUE_CAPACITY as int,
    ensures
        final(stream).wf(),
        final(executor).wf(),
        // full channel: the byte is dropped and nothing changes
        old(stream)@.bytes.len() >= SCANCODE_QUEUE_CAPACITY as int ==> {
            &&& status == DeliverStatus::Dropped
            &&& final(stream)@ == old(stream)@
            &&& final(executor)@ == old(executor)@
        },
        // room in the channel: the byte is appended and the registered
        // consumer, if any, is re-enqueued exactly once
        old(stream)@.bytes.len() < SCANCODE_QUEUE_CAPACITY as int ==> {
            &&& status == DeliverStatus::Delivered
            &&& final(stream)@.bytes == old(stream)@.bytes.push(scancode)
            &&& final(stream)@.waker is None
            &&& match old(stream)@.waker {
                Some(id) => final(executor)@.ready == old(executor)@.ready.push(id),
                None => final(executor)@.ready == old(executor)@.ready,
            }
            &&& final(executor)@.tasks == old(executor)@.tasks
            &&& final(executor)@.wakers == old(executor)@.wakers
            &&& final(executor)@.handles_created == old(executor)@.handles_created
        },
{
    let ok = u8_queue_push(&mut stream.queue, scancode);
    if ok {
        match stream.waker.take() {
            Some(handle) => executor.wake(handle),
            None => {},
        }
        DeliverStatus::Delivered
    } else {
        DeliverStatus::Dropped
    }
}

#[verifier::external_type_specification]
#[verifier::external_body]
pub struct ExKeyEvent(pc_keyboard::KeyEvent);

/// A decoded keypress: a printable unicode character, or a raw key (one
/// without a unicode meaning, such as a function key), reported by the
/// numeric value of its key code.
#[derive(Debug, Clone, Copy, PartialEq, Eq, Structural)]
pub enum KeyOutput {
    Unicode(char),
    RawKey(u8),
}

/// A stateful scancode decoder: bytes are fed one at a time through the
/// scancode-set state machine and the US 104-key layout. What a byte decodes
/// to depends on the decoder's accumulated state — held modifiers, pending
/// multi-byte sequences — which lives inside the layout crate; this library
/// states nothing about the mapping itself.
///
/// The struct is opaque to the verifier: `pc_keyboard::PS2Keyboard` cannot be
/// declared to it, because that type's parameters are bound by the layout
/// crate's own traits.
#[verifier::external_body]
pub struct KeypressDecoder {
    keyboard: pc_keyboard::PS2Keyboard<pc_keyboard::layouts::Us104Key, pc_keyboard::ScancodeSet1>,
}

impl KeypressDecoder {
    pub fn new() -> KeypressDecoder {
        KeypressDecoder::fresh()
    }

    /// Relies on `pc_keyboard::PS2Keyboard::new`: a fresh decoder over
    /// scancode set 1 and the US 104-key layout, with control keys passed
    /// through unchanged.
    #[verifier::external_body]
    fn fresh() -> KeypressDecoder {
        KeypressDecoder {
            keyboard: pc_keyboard::PS2Keyboard::new(
                pc_keyboard::ScancodeSet1::new(),
                pc_keyboard::layouts::Us104Key,
                pc_keyboard::HandleControl::Ignore,
            ),
        }
    }

    /// Relies on `pc_keyboard::PS2Keyboard::add_byte`: advances the
    /// scancode-set state machine by one byte. A byte that completes a key
    /// event yields it; one that starts a multi-byte sequence, or is
    /// rejected by the protocol, yields nothing.
    #[verifier::external_body]
    fn add_byte(&mut self, scancode: u8) -> Option<pc_keyboard::KeyEvent> {
        match self.keyboard.add_byte(scancode) {
            Ok(event) => event,
            Err(_) => None,
        }
    }

    /// Relies on `pc_keyboard::PS2Keyboard::process_keyevent`: applies the
    /// modifier state and the layout to a key event; a key press decodes to
    /// a unicode character or a raw key code, a key release usually to
    /// nothing.
    #[verifier::external_body]
    fn process_keyevent(&mut self, event: pc_keyboard::KeyEvent) -> Option<KeyOutput> {
        match self.keyboard.process_keyevent(event) {
            Some(pc_keyboard::DecodedKey::Unicode(c)) => Some(KeyOutput::Unicode(c)),
            Some(pc_keyboard::DecodedKey::RawKey(k)) => Some(KeyOutput::RawKey(k as u8)),
            None => None,
        }
    }

    /// Feeds one scancode; if this byte completes a keypress, the decoded
    /// key comes back.
    pub fn decode(&mut self, scancode: u8) -> Option<KeyOutput> {
        match self.add_byte(scancode) {
            Some(event) => self.process_keyevent(event),
            None => None,
        }
    }
}

/// The keypress computation: drains the scancode stream, decodes each byte,
/// and collects what the bytes decode to, in arrival order, for the embedder
/// to display. It never completes: when the stream runs dry it suspends with
/// its wakeup armed, to be re-polled after the next delivery.
pub struct KeypressTask {
    decoder: KeypressDecoder,
    printed: Vec<KeyOutput>,
}

impl View for KeypressTask {
    type V = Seq<KeyOutput>;

    closed spec fn view(&self) -> Seq<KeyOutput> {
        self.printed@
    }
}

impl KeypressTask {
    pub fn new() -> (t: KeypressTask)
        ensures
            t@ == Seq::<KeyOutput>::empty(),
    {
        KeypressTask { decoder: KeypressDecoder::new(), printed: Vec::new() }
    }

    /// The keys decoded so far, in arrival order.
    pub fn printed(&self) -> (keys: &Vec<KeyOutput>)
        ensures
            keys@ == self@,
    {
        &self.printed
    }

    /// One collection step: appends the key a byte decoded to, if any. Every
    /// completed key is kept; a byte that completed none changes nothing.
    pub fn absorb(&mut self, key: Option<KeyOutput>)
        ensures
            match key {
                Some(k) => final(self)@ == old(self)@.push(k),
                None => final(self)@ == old(self)@,
            },
    {
        match key {
            Some(k) => self.printed.push(k),
            None => {},
        }
    }

    /// One poll's worth of work: takes bytes off the stream until it reports
    /// `Pending`, feeding each into the decoder and collecting every key the
    /// decoder completes. On return the channel has been fully drained and
    /// the caller's wakeup is armed; each consumed byte yields at most one
    /// key, and nothing already collected is lost or reordered.
    pub fn drain(&mut self, cx: &Context, stream: &mut ScancodeStream)
        requires
            old(stream).wf(),
        ensures
            final(stream).wf(),
            pending_armed(final(stream)@, cx@),
            old(self)@.is_prefix_of(final(self)@),
            final(self)@.len() <= old(self)@.len() + old(stream)@.bytes.len(),
    {
        let ghost pre_out: Seq<KeyOutput> = self@;
        let ghost pre_bytes: Seq<u8> = stream@.bytes;
        let ghost mut j: int = 0;
        proof {
            assert(pre_bytes.skip(0) =~= pre_bytes);
        }
        loop
            invariant
                stream.wf(),
                0 <= j <= pre_bytes.len(),
                stream@.bytes == pre_bytes.skip(j),
                pre_out.is_prefix_of(self@),
                self@.len() <= pre_out.len() + j,
            ensures
                stream.wf(),
                pending_armed(stream@, cx@),
                pre_out.is_prefix_of(self@),
                self@.len() <= pre_out.len() + pre_bytes.len(),
            decreases stream@.bytes.len(),
        {
            match stream.poll_next(cx) {
                StreamPoll::Pending => {
                    break;
                },
                StreamPoll::Ready(scancode) => {
                    proof {
                        assert(pre_bytes.skip(j).skip(1) =~= pre_bytes.skip(j + 1));
                        j = j + 1;
                    }
                    let key = self.decoder.decode(scancode);
                    self.absorb(key);
                    proof {
                        assert(pre_out.is_prefix_of(self.printed@)) by {
                            assert(self.printed@.subrange(0, pre_out.len() as int) =~= pre_out);
                        }
                    }
                },
            }
        }
    }
}

impl crate::task::Computation for KeypressTask {
    /// The keypress computation never completes: each poll drains the
    /// stream, keeps what was already collected, and suspends with its
    /// wakeup armed.
    fn poll(&mut self, cx: &Context, stream: &mut ScancodeStream) -> (p: Poll)
        ensures
            p == Poll::Pending,
            pending_armed(final(stream)@, cx@),
            old(self)@.is_prefix_of(final(self)@),
    {
        self.drain(cx, stream);
        Poll::Pending
    }
}

/// No lost wakeup: a consumer whose poll returned `Pending` left the stream
/// in `pending_armed` state — channel empty, its handle registered. Any
/// later delivery that finds room in the channel therefore both buffers the
/// byte and re-enqueues exactly that consumer, so the `Pending` return is
/// always followed by a re-poll that finds the byte.
pub proof fn lemma_no_lost_wakeup(
    s0: StreamView,
    s1: StreamView,
    e0: ExecutorView,
    e1: ExecutorView,
    id: u64,
    scancode: u8,
)
    requires
        pending_armed(s0, id),
        s0.bytes.len() < SCANCODE_QUEUE_CAPACITY as int,
        // the transition `add_scancode` ensures for a non-full channel
        s1.bytes == s0.bytes.push(scancode),
        match s0.waker {
            Some(i) => e1.ready == e0.ready.push(i),
            None => e1.ready == e0.ready,
        },
    ensures
        e1.ready.contains(id),
        s1.bytes.len() > 0,
{
    assert(e1.ready == e0.ready.push(id));
    assert(e1.ready.contains(id)) by {
        assert(e1.ready[e0.ready.len() as int] == id);
    }
}

} // verus!
