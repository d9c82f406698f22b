//! Cooperative task scheduling and interrupt-to-task signalling for a
//! single-core kernel: suspendable computations are driven to completion by an
//! executor, while an interrupt-safe byte channel and a single-slot waker
//! register carry wake signals from interrupt handlers back into the
//! ready-queue.

pub mod interrupts;
mod queue;
pub mod task;
