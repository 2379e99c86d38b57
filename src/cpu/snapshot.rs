//! A copy of the processor's registers and of the memory it addresses.
use vstd::prelude::*;

use crate::cpu::{Cpu, CpuError};
use crate::{Addressable, Byte, Snapshottable, Word};

verus! {

/// The registers, the flags, and a dump of memory, copied at one moment.
#[allow(non_snake_case)]
pub struct Snapshot {
    /// Memory dump.
    pub dump: Vec<Byte>,
    /// Program counter.
    pub PC: Word,
    /// Stack pointer.
    pub SP: Byte,
    /// Accumulator.
    pub A: Byte,
    /// Index register X.
    pub X: Byte,
    /// Index register Y.
    pub Y: Byte,
    /// Carry flag.
    pub C: bool,
    /// Zero flag.
    pub Z: bool,
    /// Interrupt-disable flag.
    pub I: bool,
    /// Decimal-mode flag.
    pub D: bool,
    /// Break flag.
    pub B: bool,
    /// Overflow flag.
    pub V: bool,
    /// Negative flag.
    pub N: bool,
}

impl<T: Addressable> Snapshottable for Cpu<T> {
    type Snapshot = Snapshot;

    /// Copies the registers and the device's image; never fails.
    fn snapshot(&self) -> (r: Result<Snapshot, CpuError>)
        ensures
            match r {
                Ok(s) => {
                    &&& s.dump@ == self.addr.image()
                    &&& s.PC == self.regs.PC
                    &&& s.SP == self.regs.SP
                    &&& s.A == self.regs.A
                    &&& s.X == self.regs.X
                    &&& s.Y == self.regs.Y
                    &&& s.C == self.regs.C
                    &&& s.Z == self.regs.Z
                    &&& s.I == self.regs.I
                    &&& s.D == self.regs.D
                    &&& s.B == self.regs.B
                    &&& s.V == self.regs.V
                    &&& s.N == self.regs.N
                },
                Err(_) => false,
            },
    {
        Ok(
            Snapshot {
                dump: self.addr.snapshot(),
                PC: self.regs.PC,
                SP: self.regs.SP,
                A: self.regs.A,
                X: self.regs.X,
                Y: self.regs.Y,
                C: self.regs.C,
                Z: self.regs.Z,
                I: self.regs.I,
                D: self.regs.D,
                B: self.regs.B,
                V: self.regs.V,
                N: self.regs.N,
            },
        )
    }
}

} // verus!
