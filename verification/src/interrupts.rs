//! Interrupt-vector bookkeeping for the two hardware interrupts the
//! scheduling core cares about. The first 32 vectors are taken by CPU
//! exceptions, so the programmable interrupt controller's lines are remapped
//! to start right after them. Installing the descriptor table, the
//! controller's acknowledgment protocol and the handler bodies belong to the
//! platform layer; the keyboard handler's only duty towards this crate is to
//! call `add_scancode` once per received scancode.

use vstd::prelude::*;

verus! {

/// First vector of the primary interrupt controller: right after the 32 CPU
/// exception vectors.
pub const PIC_1_OFFSET: u8 = 32;

/// First vector of the secondary controller, chained eight lines later.
pub const PIC_2_OFFSET: u8 = PIC_1_OFFSET + 8;

/// The interrupt lines the scheduling core is wired to.
#[derive(Debug, Clone, Copy, PartialEq, Eq, Structural)]
pub enum InterruptIndex {
    Timer,
    Keyboard,
}

impl InterruptIndex {
    /// The interrupt vector number of the line.
    pub fn as_u8(self) -> (n: u8)
        ensures
            self == InterruptIndex::Timer ==> n == PIC_1_OFFSET,
            self == InterruptIndex::Keyboard ==> n == PIC_1_OFFSET + 1,
    {
        match self {
            InterruptIndex::Timer => PIC_1_OFFSET,
            InterruptIndex::Keyboard => PIC_1_OFFSET + 1,
        }
    }

    /// The vector number, widened for indexing a descriptor table.
    pub fn as_usize(self) -> (n: usize)
        ensures
            self == InterruptIndex::Timer ==> n == PIC_1_OFFSET as usize,
            self == InterruptIndex::Keyboard ==> n == PIC_1_OFFSET as usize + 1,
    {
        self.as_u8() as usize
    }
}

} // verus!
