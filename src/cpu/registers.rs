//! The register file, the packing of the status flags into a byte, and the
//! stack primitives.
use vstd::prelude::*;

use crate::cpu::address::word_of;
use crate::cpu::alu::{bit, negative};
use crate::{Byte, Word};

verus! {

/// Status bit of the carry flag.
pub const C_FLAG: Byte = 0b0100_0000;
/// Status bit of the zero flag.
pub const Z_FLAG: Byte = 0b0010_0000;
/// Status bit of the interrupt-disable flag.
pub const I_FLAG: Byte = 0b0001_0000;
/// Status bit of the decimal-mode flag.
pub const D_FLAG: Byte = 0b0000_1000;
/// Status bit of the break flag.
pub const B_FLAG: Byte = 0b0000_0100;
/// Status bit of the overflow flag.
pub const V_FLAG: Byte = 0b0000_0010;
/// Status bit of the negative flag.
pub const N_FLAG: Byte = 0b0000_0001;

/// The page that holds the stack.
pub const SP_PAGE: Byte = 0x01;
/// The stack pointer after a reset: the stack is empty.
pub const SP_ADDR: Byte = 0xFF;

/// The registers and status flags of the processor.
#[allow(non_snake_case)]
#[derive(Clone, Copy, Debug, PartialEq, Eq, Structural)]
pub struct Registers {
    /// Program counter: the address of the next byte to fetch.
    pub PC: Word,
    /// Stack pointer: the offset of the next free slot within page one.
    pub SP: Byte,
    /// Accumulator.
    pub A: Byte,
    /// Index register X.
    pub X: Byte,
    /// Index register Y.
    pub Y: Byte,
    /// Carry flag.
    pub C: bool,
    /// Zero flag.
    pub Z: bool,
    /// Interrupt-disable flag.
    pub I: bool,
    /// Decimal-mode flag (decimal arithmetic is not supported).
    pub D: bool,
    /// Break flag.
    pub B: bool,
    /// Overflow flag.
    pub V: bool,
    /// Negative flag.
    pub N: bool,
}

/// `r` with the zero and negative flags set from `v`.
pub open spec fn with_zn(r: Registers, v: Byte) -> Registers {
    Registers { Z: v == 0, N: negative(v), ..r }
}

/// The status byte of `r`. One bit per flag:
///
/// | bit | 7 | 6 | 5 | 4 | 3 | 2 | 1 | 0 |
/// |-----|---|---|---|---|---|---|---|---|
/// | flag| - | C | Z | I | D | B | V | N |
pub open spec fn status_of(r: Registers) -> Byte {
    (64 * bit(r.C) + 32 * bit(r.Z) + 16 * bit(r.I) + 8 * bit(r.D) + 4 * bit(r.B) + 2 * bit(r.V)
        + bit(r.N)) as Byte
}

/// `r` with its seven flags taken from the status byte `s`.
pub open spec fn with_status(r: Registers, s: Byte) -> Registers {
    Registers {
        C: (s / 64) % 2 == 1,
        Z: (s / 32) % 2 == 1,
        I: (s / 16) % 2 == 1,
        D: (s / 8) % 2 == 1,
        B: (s / 4) % 2 == 1,
        V: (s / 2) % 2 == 1,
        N: s % 2 == 1,
        ..r
    }
}

/// Whether the status byte `s` asks for decimal mode.
pub open spec fn decimal_in(s: Byte) -> bool {
    (s / 8) % 2 == 1
}

/// The address of stack slot `sp`.
pub open spec fn stack_at(sp: Byte) -> Word {
    word_of(sp, SP_PAGE)
}

/// The stack pointer after a push.
pub open spec fn sp_down(sp: Byte, k: int) -> Byte {
    ((sp as int - k) % 256) as Byte
}

impl Registers {
    /// Every register zero and every flag clear.
    pub open spec fn zeroed_spec() -> Registers {
        Registers {
            PC: 0,
            SP: 0,
            A: 0,
            X: 0,
            Y: 0,
            C: false,
            Z: false,
            I: false,
            D: false,
            B: false,
            V: false,
            N: false,
        }
    }

    /// The register file of a processor that has not been reset.
    pub fn zeroed() -> (r: Registers)
        ensures
            r == Registers::zeroed_spec(),
    {
        Registers {
            PC: 0,
            SP: 0,
            A: 0,
            X: 0,
            Y: 0,
            C: false,
            Z: false,
            I: false,
            D: false,
            B: false,
            V: false,
            N: false,
        }
    }

    /// Packs the flags into the status byte.
    pub fn status_get(&self) -> (r: Byte)
        ensures
            r == status_of(*self),
    {
        let mut res: u8 = 0;
        if self.C {
            res = res + C_FLAG;
        }
        if self.Z {
            res = res + Z_FLAG;
        }
        if self.I {
            res = res + I_FLAG;
        }
        if self.D {
            res = res + D_FLAG;
        }
        if self.B {
            res = res + B_FLAG;
        }
        if self.V {
            res = res + V_FLAG;
        }
        if self.N {
            res = res + N_FLAG;
        }
        res
    }

    /// Unpacks the status byte into the flags; the other registers stay.
    pub fn status_set(&mut self, status: Byte)
        ensures
            *final(self) == with_status(*old(self), status),
    {
        assert((status & C_FLAG != 0) == ((status / 64) % 2 == 1) && (status & Z_FLAG != 0) == ((
        status / 32) % 2 == 1) && (status & I_FLAG != 0) == ((status / 16) % 2 == 1) && (status
            & D_FLAG != 0) == ((status / 8) % 2 == 1) && (status & B_FLAG != 0) == ((status / 4) % 2
            == 1) && (status & V_FLAG != 0) == ((status / 2) % 2 == 1) && (status & N_FLAG != 0)
            == (status % 2 == 1)) by (bit_vector);
        self.C = status & C_FLAG != 0;
        self.Z = status & Z_FLAG != 0;
        self.I = status & I_FLAG != 0;
        self.D = status & D_FLAG != 0;
        self.B = status & B_FLAG != 0;
        self.V = status & V_FLAG != 0;
        self.N = status & N_FLAG != 0;
    }
}

/// Packing the flags into the status byte and unpacking it again restores
/// every flag.
pub proof fn lemma_status_round_trip(r: Registers)
    ensures
        with_status(r, status_of(r)) == r,
{
}

} // verus!
