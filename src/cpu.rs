//! The 6502 core.
use vstd::prelude::*;

use crate::cpu::registers::{Registers, SP_ADDR};
use crate::cpu::semantics::{
    failed_address, interrupt_spec, peek_op, reset_spec, tick_spec, IRQB, NMIB, RESB,
};
use crate::cpu::instructions::OpCode;
use crate::{Addressable, Byte, Interrupt, Interruptible, Resettable, Tickable, Word, IRQ};

pub mod address;
pub mod alu;
pub mod instructions;
pub mod registers;
pub mod semantics;
pub mod executor;
pub mod snapshot;
pub mod laws;

verus! {

/// Why an operation of the processor failed.
#[derive(Debug, PartialEq, Eq)]
pub enum CpuError {
    /// The byte at the program counter is no opcode.
    BadOpCode(Byte),
    /// A read or write went to an address that nothing serves.
    OutOfBounds(Word),
    /// Decimal mode was asked for, by SED or by a restored status byte.
    DecimalModeUnsupported,
    /// An instruction asked for an operand address in a mode that has none.
    InvalidAddressMode,
    /// The reset vector could not be read at this address.
    ResetFailed(Word),
    /// The interrupt sequence could not read or write this address.
    InterruptFailed(Word),
    /// No NOP was reached within the tick budget.
    EndlessLoop,
    /// A device attached to an oscillator failed to tick.
    ChildTick(String, Box<CpuError>),
}

/// How many ticks `tick_until_nop` runs before it gives up.
pub const TICK_BUDGET: usize = 2000;

/// How ticks map to instructions.
#[derive(Clone, Copy, Debug, PartialEq, Eq, Structural)]
pub enum Mode {
    /// Every tick executes one whole instruction.
    Fast,
    /// Every instruction takes as many ticks as the 6502 took cycles; the
    /// count is the number of ticks still to burn before the next fetch.
    Original(u8),
}

/// The state of a processor as the contracts see it: the registers, the
/// mode, and the bytes that its bus serves.
pub ghost struct Machine {
    pub regs: Registers,
    pub mode: Mode,
    pub mem: Map<Word, Byte>,
}

/// A 6502 processor that owns the device it addresses.
pub struct Cpu<T> {
    /// The device the processor reads and writes, typically a bus.
    pub addr: T,
    /// The registers and flags.
    pub regs: Registers,
    /// How ticks map to instructions.
    pub mode: Mode,
}

impl<T: Addressable> Cpu<T> {
    /// The state the contracts speak of.
    pub open spec fn machine(&self) -> Machine {
        Machine { regs: self.regs, mode: self.mode, mem: self.addr.contents() }
    }

    /// A processor over `addr`, in fast mode, with every register zero. It
    /// must be reset before it runs a program.
    pub fn new(addr: T) -> (r: Cpu<T>)
        ensures
            r.addr == addr,
            r.regs == Registers::zeroed_spec(),
            r.mode == Mode::Fast,
    {
        Cpu { addr, regs: Registers::zeroed(), mode: Mode::Fast }
    }

    /// Runs `count` ticks, and stops at the first that fails.
    pub fn tick_for(&mut self, count: usize) -> (r: Result<(), CpuError>)
        ensures
            match run(old(self).machine(), count as nat) {
                Ok(m) => r is Ok && final(self).machine() == m,
                Err((m, e)) => r == Err::<(), CpuError>(e) && final(self).machine() == m,
            },
    {
        let mut i: usize = 0;
        while i < count
            invariant
                i <= count,
                run(old(self).machine(), i as nat) == Ok::<Machine, (Machine, CpuError)>(self.machine()),
            decreases count - i,
        {
            let r = self.tick();
            match r {
                Ok(()) => {},
                Err(e) => {
                    assert(run(old(self).machine(), (i + 1) as nat) == Err::<Machine, (Machine, CpuError)>((self.machine(), e)));
                    let j = i + 1;
                    proof {
                        lemma_run_stops(old(self).machine(), j as nat, count as nat);
                    }
                    return Err(e);
                },
            }
            i = i + 1;
        }
        Ok(())
    }

    /// Ticks until the instruction at the program counter is a NOP, and
    /// fails with `EndlessLoop` when that takes more than `TICK_BUDGET` ticks.
    pub fn tick_until_nop(&mut self) -> (r: Result<(), CpuError>)
        ensures
            run_until_nop(old(self).machine(), TICK_BUDGET as nat) == (final(self).machine(), r),
    {
        let mut left: usize = TICK_BUDGET;
        loop
            invariant
                left <= TICK_BUDGET,
                run_until_nop(old(self).machine(), TICK_BUDGET as nat) == run_until_nop(self.machine(), left as nat),
            decreases left,
        {
            let op = self.read_op()?;
            if matches!(op.0, OpCode::Nop) {
                return Ok(());
            }
            if left == 0 {
                return Err(CpuError::EndlessLoop);
            }
            self.tick()?;
            left = left - 1;
        }
    }

    /// Switches between fast and cycle-counted execution.
    pub fn mode_set(&mut self, mode: Mode)
        ensures
            final(self).mode == mode,
            final(self).regs == old(self).regs,
            final(self).addr == old(self).addr,
    {
        self.mode = mode;
    }
}

/// `n` ticks from `m`: the machine they reach, or the machine at the first
/// failed tick with its error.
pub open spec fn run(m: Machine, n: nat) -> Result<Machine, (Machine, CpuError)>
    decreases n,
{
    if n == 0 {
        Ok(m)
    } else {
        match run(m, (n - 1) as nat) {
            Err(x) => Err(x),
            Ok(m1) => match tick_spec(m1) {
                Ok(m2) => Ok(m2),
                Err(e) => Err((m1, e)),
            },
        }
    }
}

/// Once a run fails, a longer run fails the same way.
proof fn lemma_run_stops(m: Machine, i: nat, n: nat)
    requires
        i <= n,
        run(m, i) is Err,
    ensures
        run(m, n) == run(m, i),
    decreases n - i,
{
    if i < n {
        lemma_run_stops(m, i, (n - 1) as nat);
    }
}

/// Ticking from `m` until a NOP is next, with `budget` ticks left: the
/// machine where that stops, and how.
pub open spec fn run_until_nop(m: Machine, budget: nat) -> (Machine, Result<(), CpuError>)
    decreases budget,
{
    match peek_op(m.regs, m.mem) {
        Err(e) => (m, Err(e)),
        Ok(op) => if op.0 == OpCode::Nop {
            (m, Ok(()))
        } else if budget == 0 {
            (m, Err(CpuError::EndlessLoop))
        } else {
            match tick_spec(m) {
                Err(e) => (m, Err(e)),
                Ok(m2) => run_until_nop(m2, (budget - 1) as nat),
            }
        },
    }
}

/// The address an error of a memory access names.
fn failed_addr(e: CpuError) -> (a: Word)
    ensures
        a == failed_address(e),
{
    match e {
        CpuError::OutOfBounds(a) => a,
        _ => 0,
    }
}

impl<T: Addressable> Tickable for Cpu<T> {
    open spec fn ticked(before: Self, after: Self, r: Result<(), CpuError>) -> bool {
        match tick_spec(before.machine()) {
            Ok(m) => r == Ok::<(), CpuError>(()) && after.machine() == m,
            Err(e) => r == Err::<(), CpuError>(e) && after.machine() == before.machine(),
        }
    }

    /// In cycle-counted mode with cycles left to burn, counts one down;
    /// otherwise executes the instruction at the program counter. A failed
    /// tick changes nothing.
    fn tick(&mut self) -> (r: Result<(), CpuError>) {
        if let Mode::Original(n) = self.mode {
            if n > 0 {
                self.mode = Mode::Original(n - 1);
                return Ok(());
            }
        }
        let eff = self.step()?;
        self.commit(&eff.writes);
        self.regs = eff.regs;
        if let Mode::Original(_) = self.mode {
            self.mode = Mode::Original(eff.cycles - 1);
        }
        Ok(())
    }
}

impl<T: Addressable> Resettable for Cpu<T> {
    /// Loads the program counter from the reset vector and clears the
    /// registers as the reset sequence does; fails, changing nothing, when
    /// the vector cannot be read.
    fn reset(&mut self) -> (r: Result<(), CpuError>)
        ensures
            match reset_spec(old(self).machine()) {
                Ok(m) => r is Ok && final(self).machine() == m,
                Err(e) => r == Err::<(), CpuError>(e) && final(self).machine() == old(self).machine(),
            },
    {
        let pc = match self.read_word(RESB, RESB + 1) {
            Ok(w) => w,
            Err(e) => {
                return Err(CpuError::ResetFailed(failed_addr(e)));
            },
        };
        self.regs.PC = pc;
        self.regs.SP = SP_ADDR;
        self.regs.A = 0;
        self.regs.X = 0;
        self.regs.Y = 0;
        self.regs.I = false;
        self.regs.D = false;
        self.regs.B = false;
        if let Mode::Original(_) = self.mode {
            self.mode = Mode::Original(0);
        }
        Ok(())
    }
}

impl<T: Addressable> Interruptible for Cpu<T> {
    /// An IRQ (kind 0) while interrupts are disabled is ignored. Otherwise
    /// the return address less one and the status byte are pushed,
    /// interrupts are disabled, and the program counter is loaded from the
    /// IRQ or NMI vector. Fails, changing nothing, when a byte of that is not
    /// served.
    fn interrupt(&mut self, tp: Interrupt) -> (r: Result<(), CpuError>)
        ensures
            match interrupt_spec(old(self).machine(), tp) {
                Ok(m) => r is Ok && final(self).machine() == m,
                Err(e) => r == Err::<(), CpuError>(e) && final(self).machine() == old(self).machine(),
            },
    {
        if tp == IRQ && self.regs.I {
            return Ok(());
        }
        let vector = if tp == IRQ { IRQB } else { NMIB };
        let eff = match self.exec_interrupt(self.regs, vector, 7) {
            Ok(e) => e,
            Err(e) => {
                return Err(CpuError::InterruptFailed(failed_addr(e)));
            },
        };
        if let Some(a) = self.check_writes(&eff.writes) {
            return Err(CpuError::InterruptFailed(a));
        }
        self.commit(&eff.writes);
        self.regs = eff.regs;
        Ok(())
    }
}

} // verus!
