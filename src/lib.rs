//! An emulator of the MOS 6502 processor: the instruction engine, its
//! interrupt and reset machinery, a memory device, an address bus that routes
//! accesses to devices, and an oscillator that paces ticks.
use vstd::prelude::*;

use crate::cpu::CpuError;

pub mod bus;
pub mod cpu;
pub mod memory;
pub mod oscillator;

verus! {

/// An unsigned 16-bit value: an address or a full register.
pub type Word = u16;

/// An unsigned 8-bit value.
pub type Byte = u8;

/// The number of bytes in the 16-bit address space.
pub const SPACE_SIZE: usize = 0x10000;

/// A device that serves bytes at some addresses of the 16-bit space.
pub trait Addressable: Sized {
    /// The bytes this device serves: an address is in bounds when it is a
    /// key of this map.
    spec fn contents(&self) -> Map<Word, Byte>;

    /// What `snapshot` copies out.
    spec fn image(&self) -> Seq<Byte>;

    /// Whether the device serves `addr`.
    fn inside_bounds(&self, addr: Word) -> (r: bool)
        ensures
            r == self.contents().dom().contains(addr),
    ;

    /// The byte at `addr`.
    fn read(&self, addr: Word) -> (r: Byte)
        requires
            self.contents().dom().contains(addr),
        ensures
            r == self.contents()[addr],
    ;

    /// Stores `value` at `addr`; no other address changes.
    fn write(&mut self, addr: Word, value: Byte)
        requires
            old(self).contents().dom().contains(addr),
        ensures
            final(self).contents() == old(self).contents().insert(addr, value),
    ;

    /// A copy of the device's bytes.
    fn snapshot(&self) -> (r: Vec<Byte>)
        ensures
            r@ == self.image(),
    ;
}

/// Something a clock drives.
pub trait Tickable: Sized {
    /// Whether one tick can take `before` to `after` with the outcome `r`.
    spec fn ticked(before: Self, after: Self, r: Result<(), CpuError>) -> bool;

    /// Advances by one clock tick.
    fn tick(&mut self) -> (r: Result<(), CpuError>)
        ensures
            Self::ticked(*old(self), *final(self), r),
    ;
}

/// Something that can be brought to its initial state.
pub trait Resettable {
    /// Runs the reset sequence.
    fn reset(&mut self) -> Result<(), CpuError>;
}

/// The kind of an interrupt: 0 for a maskable IRQ, anything else for an NMI.
pub type Interrupt = u8;

/// The kind of a maskable interrupt request.
pub const IRQ: Interrupt = 0;

/// The kind of a non-maskable interrupt.
pub const NMI: Interrupt = 1;

/// Something that takes interrupts.
pub trait Interruptible {
    /// Delivers an interrupt of kind `tp`.
    fn interrupt(&mut self, tp: Interrupt) -> Result<(), CpuError>;
}

/// Something that can hand out a copy of its state.
pub trait Snapshottable {
    /// The copy.
    type Snapshot;

    /// Copies the state out.
    fn snapshot(&self) -> Result<Self::Snapshot, CpuError>;
}

} // verus!
