//! Executing one instruction: reading what it needs, computing its new
//! registers and writes, and committing them only when all of it succeeded.
use vstd::prelude::*;

use crate::cpu::address::{high_of, low_of, Address};
use crate::cpu::alu::{add_with_carry, compare, shift_left, shift_right, subtract_with_borrow};
use crate::cpu::instructions::{decode, AddressMode, Cycles, Op, OpCode};
use crate::cpu::registers::{sp_down, stack_at, with_status, with_zn, Registers, SP_PAGE};
use crate::cpu::semantics::{
    above, apply, branch_step, branch_taken, control_step, enter_interrupt, execute, implied_result,
    indexed, jump_step, modify, modify_step, operand, peek_op, rd, rd_word, read_result, read_step,
    return_step, stack_step, step, store_step, unserved, wrap, Change, Operand, IRQB,
};
use crate::cpu::{Cpu, CpuError};
use crate::{Addressable, Byte, Word};

verus! {

/// The registers, writes and cycle count an instruction produced.
pub struct Effect {
    pub regs: Registers,
    pub writes: Vec<(Word, Byte)>,
    pub cycles: u8,
}

impl View for Effect {
    type V = Change;

    open spec fn view(&self) -> Change {
        Change { regs: self.regs, writes: self.writes@, cycles: self.cycles as int }
    }
}

/// An executed instruction as the contracts see it.
pub open spec fn outcome(r: Result<Effect, CpuError>) -> Result<Change, CpuError> {
    match r {
        Ok(e) => Ok(e@),
        Err(e) => Err(e),
    }
}

/// `r` with the zero and negative flags set from `v`.
fn zn(r: Registers, v: Byte) -> (o: Registers)
    ensures
        o == with_zn(r, v),
{
    Registers { Z: v == 0, N: v >= 128, ..r }
}

/// The address of stack slot `sp`.
fn stack_addr(sp: Byte) -> (r: Word)
    ensures
        r == stack_at(sp),
{
    Address::Full(sp, SP_PAGE).to_word()
}

/// Pushes `b`: the byte goes to the current stack slot, and the stack
/// pointer moves down.
fn stack_push(writes: &mut Vec<(Word, Byte)>, regs: &mut Registers, b: Byte)
    ensures
        final(writes)@ == old(writes)@.push((stack_at(old(regs).SP), b)),
        *final(regs) == (Registers { SP: sp_down(old(regs).SP, 1), ..*old(regs) }),
{
    writes.push((stack_addr(regs.SP), b));
    regs.SP = regs.SP.wrapping_sub(1);
}

/// `w + k`, wrapping at 16 bits.
fn advance(w: Word, k: u16) -> (r: Word)
    ensures
        r == wrap(w + k),
{
    w.wrapping_add(k)
}

/// The registers after an instruction that read the byte `m`.
fn read_result_exec(op: OpCode, r: Registers, m: Byte) -> (o: Result<Registers, CpuError>)
    ensures
        o == read_result(op, r, m),
{
    match op {
        OpCode::Lda => Ok(zn(Registers { A: m, ..r }, m)),
        OpCode::Ldx => Ok(zn(Registers { X: m, ..r }, m)),
        OpCode::Ldy => Ok(zn(Registers { Y: m, ..r }, m)),
        OpCode::And => Ok(zn(Registers { A: r.A & m, ..r }, r.A & m)),
        OpCode::Eor => Ok(zn(Registers { A: r.A ^ m, ..r }, r.A ^ m)),
        OpCode::Ora => Ok(zn(Registers { A: r.A | m, ..r }, r.A | m)),
        OpCode::Bit => Ok(Registers { Z: r.A & m == 0, N: m >= 128, V: (m / 64) % 2 == 1, ..r }),
        OpCode::Adc => {
            if r.D {
                return Err(CpuError::DecimalModeUnsupported);
            }
            let s = add_with_carry(r.A, m, r.C);
            Ok(zn(Registers { A: s.value, C: s.carry, V: s.overflow, ..r }, s.value))
        },
        OpCode::Sbc => {
            if r.D {
                return Err(CpuError::DecimalModeUnsupported);
            }
            let s = subtract_with_borrow(r.A, m, r.C);
            Ok(zn(Registers { A: s.value, C: s.carry, V: s.overflow, ..r }, s.value))
        },
        OpCode::Cmp => {
            let f = compare(r.A, m);
            Ok(Registers { C: f.0, Z: f.1, N: f.2, ..r })
        },
        OpCode::Cpx => {
            let f = compare(r.X, m);
            Ok(Registers { C: f.0, Z: f.1, N: f.2, ..r })
        },
        OpCode::Cpy => {
            let f = compare(r.Y, m);
            Ok(Registers { C: f.0, Z: f.1, N: f.2, ..r })
        },
        _ => Err(CpuError::InvalidAddressMode),
    }
}

/// The new value and carry of a read-modify-write instruction.
fn modify_exec(op: OpCode, v: Byte, c: bool) -> (o: (Byte, bool))
    ensures
        o == modify(op, v, c),
{
    match op {
        OpCode::Inc => (v.wrapping_add(1), c),
        OpCode::Dec => (v.wrapping_sub(1), c),
        OpCode::Asl => shift_left(v, false),
        OpCode::Rol => shift_left(v, c),
        OpCode::Lsr => shift_right(v, false),
        _ => shift_right(v, c),
    }
}

/// The registers after an instruction that reads nothing.
fn implied_result_exec(op: OpCode, r: Registers) -> (o: Result<Registers, CpuError>)
    ensures
        o == implied_result(op, r),
{
    match op {
        OpCode::Tax => Ok(zn(Registers { X: r.A, ..r }, r.A)),
        OpCode::Tay => Ok(zn(Registers { Y: r.A, ..r }, r.A)),
        OpCode::Txa => Ok(zn(Registers { A: r.X, ..r }, r.X)),
        OpCode::Tya => Ok(zn(Registers { A: r.Y, ..r }, r.Y)),
        OpCode::Tsx => Ok(zn(Registers { X: r.SP, ..r }, r.SP)),
        OpCode::Txs => Ok(Registers { SP: r.X, ..r }),
        OpCode::Inx => {
            let v = r.X.wrapping_add(1);
            Ok(zn(Registers { X: v, ..r }, v))
        },
        OpCode::Iny => {
            let v = r.Y.wrapping_add(1);
            Ok(zn(Registers { Y: v, ..r }, v))
        },
        OpCode::Dex => {
            let v = r.X.wrapping_sub(1);
            Ok(zn(Registers { X: v, ..r }, v))
        },
        OpCode::Dey => {
            let v = r.Y.wrapping_sub(1);
            Ok(zn(Registers { Y: v, ..r }, v))
        },
        OpCode::Clc => Ok(Registers { C: false, ..r }),
        OpCode::Cld => Ok(Registers { D: false, ..r }),
        OpCode::Cli => Ok(Registers { I: false, ..r }),
        OpCode::Clv => Ok(Registers { V: false, ..r }),
        OpCode::Sec => Ok(Registers { C: true, ..r }),
        OpCode::Sei => Ok(Registers { I: true, ..r }),
        OpCode::Sed => Err(CpuError::DecimalModeUnsupported),
        _ => Ok(r),
    }
}

/// Whether a branch instruction's condition holds.
fn branch_taken_exec(op: OpCode, r: &Registers) -> (t: bool)
    ensures
        t == branch_taken(op, *r),
{
    match op {
        OpCode::Bcc => !r.C,
        OpCode::Bcs => r.C,
        OpCode::Beq => r.Z,
        OpCode::Bmi => r.N,
        OpCode::Bne => !r.Z,
        OpCode::Bpl => !r.N,
        OpCode::Bvc => !r.V,
        _ => r.V,
    }
}

impl<T: Addressable> Cpu<T> {
    /// The byte at `addr`.
    pub fn read(&self, addr: Word) -> (r: Result<Byte, CpuError>)
        ensures
            r == rd(self.addr.contents(), addr),
    {
        if self.addr.inside_bounds(addr) {
            Ok(self.addr.read(addr))
        } else {
            Err(CpuError::OutOfBounds(addr))
        }
    }

    /// Stores `value` at `addr`, or fails, changing nothing, when nothing
    /// serves `addr`.
    pub fn write(&mut self, addr: Word, value: Byte) -> (r: Result<(), CpuError>)
        ensures
            r is Ok == old(self).addr.contents().dom().contains(addr),
            r is Ok ==> final(self).addr.contents() == old(self).addr.contents().insert(addr, value),
            r is Err ==> r == Err::<(), CpuError>(CpuError::OutOfBounds(addr)) && final(self).addr.contents() == old(self).addr.contents(),
            final(self).regs == old(self).regs,
            final(self).mode == old(self).mode,
    {
        if self.addr.inside_bounds(addr) {
            self.addr.write(addr, value);
            Ok(())
        } else {
            Err(CpuError::OutOfBounds(addr))
        }
    }

    /// The little-endian word with its low byte at `lo_at` and its high
    /// byte at `hi_at`.
    pub fn read_word(&self, lo_at: Word, hi_at: Word) -> (r: Result<Word, CpuError>)
        ensures
            r == rd_word(self.addr.contents(), lo_at, hi_at),
    {
        let lo = self.read(lo_at)?;
        let hi = self.read(hi_at)?;
        Ok(Address::Full(lo, hi).to_word())
    }

    /// Pulls a byte: the stack pointer moves up, and the byte of that slot
    /// is read.
    fn stack_pop(&self, regs: &mut Registers) -> (r: Result<Byte, CpuError>)
        ensures
            *final(regs) == (Registers { SP: ((old(regs).SP + 1) % 256) as Byte, ..*old(regs) }),
            r == rd(self.addr.contents(), stack_at(final(regs).SP)),
    {
        regs.SP = regs.SP.wrapping_add(1);
        self.read(stack_addr(regs.SP))
    }

    /// The operand address of `mode` for operand bytes at `regs.PC`.
    pub fn fetch_addr(&self, mode: AddressMode, regs: &Registers) -> (r: Result<Operand, CpuError>)
        ensures
            r == operand(mode, *regs, self.addr.contents()),
    {
        reveal(operand);
        let pc = regs.PC;
        let one = advance(pc, 1);
        let two = advance(pc, 2);
        match mode {
            AddressMode::Immediate => Ok(Operand { addr: pc, next: one, crossed: false }),
            AddressMode::ZeroPage => {
                let d = self.read(pc)?;
                Ok(Operand { addr: Address::Zero(d).to_word(), next: one, crossed: false })
            },
            AddressMode::ZeroPageX => {
                let d = self.read(pc)?;
                Ok(Operand { addr: Address::Zero(d.wrapping_add(regs.X)).to_word(), next: one, crossed: false })
            },
            AddressMode::ZeroPageY => {
                let d = self.read(pc)?;
                Ok(Operand { addr: Address::Zero(d.wrapping_add(regs.Y)).to_word(), next: one, crossed: false })
            },
            AddressMode::Absolute => {
                let w = self.read_word(pc, one)?;
                Ok(Operand { addr: w, next: two, crossed: false })
            },
            AddressMode::AbsoluteX => {
                let w = self.read_word(pc, one)?;
                Ok(Cpu::<T>::index_by(w, regs.X, two))
            },
            AddressMode::AbsoluteY => {
                let w = self.read_word(pc, one)?;
                Ok(Cpu::<T>::index_by(w, regs.Y, two))
            },
            AddressMode::Indirect => {
                let p = self.read_word(pc, one)?;
                let w = self.read_word(p, advance(p, 1))?;
                Ok(Operand { addr: w, next: two, crossed: false })
            },
            AddressMode::IndexedIndirect => {
                let d = self.read(pc)?;
                let z = d.wrapping_add(regs.X);
                let w = self.read_word(z as Word, z.wrapping_add(1) as Word)?;
                Ok(Operand { addr: w, next: one, crossed: false })
            },
            AddressMode::IndirectIndexed => {
                let d = self.read(pc)?;
                let w = self.read_word(d as Word, d.wrapping_add(1) as Word)?;
                Ok(Cpu::<T>::index_by(w, regs.Y, one))
            },
            _ => Err(CpuError::InvalidAddressMode),
        }
    }

    /// An absolute address indexed by `i`.
    fn index_by(base: Word, i: Byte, next: Word) -> (o: Operand)
        ensures
            o == indexed(base, i, next),
    {
        let addr = base.wrapping_add(i as Word);
        Operand { addr, next, crossed: base / 256 != addr / 256 }
    }

    /// Loads, logic, BIT, arithmetic and compares.
    fn exec_read(&self, op: Op, regs: Registers) -> (r: Result<Effect, CpuError>)
        requires
            op.2.base() <= 7,
        ensures
            outcome(r) == read_step(op, regs, self.addr.contents()),
    {
        let o = self.fetch_addr(op.1, &regs)?;
        let m = self.read(o.addr)?;
        let out = read_result_exec(op.0, Registers { PC: o.next, ..regs }, m)?;
        let base = op.2.count();
        let cycles = match op.2 {
            Cycles::Page(_) => if o.crossed { base + 1 } else { base },
            _ => base,
        };
        Ok(Effect { regs: out, writes: Vec::new(), cycles })
    }

    /// Stores: STA, STX, STY.
    fn exec_store(&self, op: Op, regs: Registers) -> (r: Result<Effect, CpuError>)
        requires
            op.2.base() <= 7,
        ensures
            outcome(r) == store_step(op, regs, self.addr.contents()),
    {
        let v = match op.0 {
            OpCode::Sta => regs.A,
            OpCode::Stx => regs.X,
            _ => regs.Y,
        };
        let o = self.fetch_addr(op.1, &regs)?;
        let mut writes: Vec<(Word, Byte)> = Vec::new();
        writes.push((o.addr, v));
        assert(writes@ == seq![(o.addr, v)]);
        Ok(Effect { regs: Registers { PC: o.next, ..regs }, writes, cycles: op.2.count() })
    }

    /// INC, DEC, ASL, LSR, ROL, ROR on the accumulator or on memory.
    fn exec_modify(&self, op: Op, regs: Registers) -> (r: Result<Effect, CpuError>)
        requires
            op.2.base() <= 7,
        ensures
            outcome(r) == modify_step(op, regs, self.addr.contents()),
    {
        let cycles = op.2.count();
        if matches!(op.1, AddressMode::Accumulator) {
            let (v, c) = modify_exec(op.0, regs.A, regs.C);
            Ok(Effect { regs: zn(Registers { A: v, C: c, ..regs }, v), writes: Vec::new(), cycles })
        } else {
            let o = self.fetch_addr(op.1, &regs)?;
            let m = self.read(o.addr)?;
            let (v, c) = modify_exec(op.0, m, regs.C);
            let mut writes: Vec<(Word, Byte)> = Vec::new();
            writes.push((o.addr, v));
            assert(writes@ == seq![(o.addr, v)]);
            Ok(Effect { regs: zn(Registers { PC: o.next, C: c, ..regs }, v), writes, cycles })
        }
    }

    /// PHA, PHP, PLA, PLP.
    fn exec_stack(&self, op: Op, regs: Registers) -> (r: Result<Effect, CpuError>)
        requires
            op.2.base() <= 7,
        ensures
            outcome(r) == stack_step(op, regs, self.addr.contents()),
    {
        let cycles = op.2.count();
        let mut writes: Vec<(Word, Byte)> = Vec::new();
        let mut out = regs;
        match op.0 {
            OpCode::Pha => {
                stack_push(&mut writes, &mut out, regs.A);
                assert(writes@ =~= seq![(stack_at(regs.SP), regs.A)]);
                Ok(Effect { regs: out, writes, cycles })
            },
            OpCode::Php => {
                stack_push(&mut writes, &mut out, regs.status_get());
                assert(writes@ =~= seq![(stack_at(regs.SP), crate::cpu::registers::status_of(regs))]);
                Ok(Effect { regs: out, writes, cycles })
            },
            OpCode::Pla => {
                let v = self.stack_pop(&mut out)?;
                Ok(Effect { regs: zn(Registers { A: v, ..out }, v), writes, cycles })
            },
            _ => {
                let s = self.stack_pop(&mut out)?;
                out.status_set(s);
                if out.D {
                    return Err(CpuError::DecimalModeUnsupported);
                }
                Ok(Effect { regs: out, writes, cycles })
            },
        }
    }

    /// The interrupt sequence through `vector`; `regs.PC` is one past the
    /// instruction to return after.
    pub(crate) fn exec_interrupt(&self, regs: Registers, vector: Word, cycles: u8) -> (r: Result<Effect, CpuError>)
        ensures
            outcome(r) == enter_interrupt(regs, self.addr.contents(), vector, cycles as int),
    {
        let ret = regs.PC.wrapping_sub(1);
        let target = self.read_word(vector, advance(vector, 1))?;
        let (lo, hi) = match Address::from_word(ret) {
            Address::Full(lo, hi) => (lo, hi),
            Address::Zero(lo) => (lo, 0),
        };
        let mut writes: Vec<(Word, Byte)> = Vec::new();
        let mut out = regs;
        stack_push(&mut writes, &mut out, hi);
        stack_push(&mut writes, &mut out, lo);
        stack_push(&mut writes, &mut out, regs.status_get());
        assert(writes@ =~= seq![
            (stack_at(regs.SP), high_of(ret)),
            (stack_at(sp_down(regs.SP, 1)), low_of(ret)),
            (stack_at(sp_down(regs.SP, 2)), crate::cpu::registers::status_of(regs)),
        ]);
        out.PC = target;
        out.I = true;
        Ok(Effect { regs: out, writes, cycles })
    }

    /// JMP and JSR.
    fn exec_jump(&self, op: Op, regs: Registers) -> (r: Result<Effect, CpuError>)
        requires
            op.2.base() <= 7,
        ensures
            outcome(r) == jump_step(op, regs, self.addr.contents()),
    {
        let cycles = op.2.count();
        let o = self.fetch_addr(op.1, &regs)?;
        if matches!(op.0, OpCode::Jmp) {
            Ok(Effect { regs: Registers { PC: o.addr, ..regs }, writes: Vec::new(), cycles })
        } else {
            let ret = o.next.wrapping_sub(1);
            let (lo, hi) = match Address::from_word(ret) {
                Address::Full(lo, hi) => (lo, hi),
                Address::Zero(lo) => (lo, 0),
            };
            let mut writes: Vec<(Word, Byte)> = Vec::new();
            let mut out = regs;
            stack_push(&mut writes, &mut out, hi);
            stack_push(&mut writes, &mut out, lo);
            assert(writes@ =~= seq![(stack_at(regs.SP), high_of(ret)), (stack_at(sp_down(regs.SP, 1)), low_of(ret))]);
            out.PC = o.addr;
            Ok(Effect { regs: out, writes, cycles })
        }
    }

    /// RTS and RTI.
    fn exec_return(&self, op: Op, regs: Registers) -> (r: Result<Effect, CpuError>)
        requires
            op.2.base() <= 7,
        ensures
            outcome(r) == return_step(op, regs, self.addr.contents()),
    {
        let cycles = op.2.count();
        let mut out = regs;
        proof {
            lemma_stack_up(regs.SP);
        }
        if matches!(op.0, OpCode::Rts) {
            let lo = self.stack_pop(&mut out)?;
            let hi = self.stack_pop(&mut out)?;
            out.PC = advance(Address::Full(lo, hi).to_word(), 1);
            Ok(Effect { regs: out, writes: Vec::new(), cycles })
        } else {
            let s = self.stack_pop(&mut out)?;
            out.status_set(s);
            if out.D {
                return Err(CpuError::DecimalModeUnsupported);
            }
            let lo = self.stack_pop(&mut out)?;
            let hi = self.stack_pop(&mut out)?;
            out.PC = advance(Address::Full(lo, hi).to_word(), 1);
            assert(out == with_status(
                Registers { PC: out.PC, SP: ((regs.SP + 3) % 256) as Byte, ..regs },
                s,
            ));
            Ok(Effect { regs: out, writes: Vec::new(), cycles })
        }
    }

    /// The conditional branches.
    fn exec_branch(&self, op: Op, regs: Registers) -> (r: Result<Effect, CpuError>)
        requires
            op.2.base() <= 7,
        ensures
            outcome(r) == branch_step(op, regs, self.addr.contents()),
    {
        let cycles = op.2.count();
        let d = self.read(regs.PC)?;
        let next = advance(regs.PC, 1);
        if branch_taken_exec(op.0, &regs) {
            let target = if d < 128 {
                next.wrapping_add(d as u16)
            } else {
                next.wrapping_sub(256 - d as u16)
            };
            let extra: u8 = if next / 256 == target / 256 { 1 } else { 2 };
            Ok(Effect { regs: Registers { PC: target, ..regs }, writes: Vec::new(), cycles: cycles + extra })
        } else {
            Ok(Effect { regs: Registers { PC: next, ..regs }, writes: Vec::new(), cycles })
        }
    }

    /// JMP, JSR, RTS, RTI, BRK and the branches.
    fn exec_control(&self, op: Op, regs: Registers) -> (r: Result<Effect, CpuError>)
        requires
            op.2.base() <= 7,
        ensures
            outcome(r) == control_step(op, regs, self.addr.contents()),
    {
        match op.0 {
            OpCode::Jmp | OpCode::Jsr => self.exec_jump(op, regs),
            OpCode::Rts | OpCode::Rti => self.exec_return(op, regs),
            OpCode::Brk => {
                if regs.I {
                    Ok(Effect { regs, writes: Vec::new(), cycles: op.2.count() })
                } else {
                    self.exec_interrupt(regs, IRQB, op.2.count())
                }
            },
            _ => self.exec_branch(op, regs),
        }
    }

    /// Executes a decoded instruction whose opcode has been fetched:
    /// `regs.PC` is just past the opcode. Reads memory, writes nothing.
    fn execute(&self, op: Op, regs: Registers) -> (r: Result<Effect, CpuError>)
        requires
            op.2.base() <= 7,
        ensures
            outcome(r) == execute(op, regs, self.addr.contents()),
            r matches Ok(e) ==> op.2.base() <= e.cycles <= op.2.base() + 2,
    {
        reveal(execute);
        match op.0 {
            OpCode::Lda | OpCode::Ldx | OpCode::Ldy | OpCode::And | OpCode::Eor | OpCode::Ora
            | OpCode::Bit | OpCode::Adc | OpCode::Sbc | OpCode::Cmp | OpCode::Cpx | OpCode::Cpy => {
                self.exec_read(op, regs)
            },
            OpCode::Sta | OpCode::Stx | OpCode::Sty => self.exec_store(op, regs),
            OpCode::Inc | OpCode::Dec | OpCode::Asl | OpCode::Lsr | OpCode::Rol | OpCode::Ror => {
                self.exec_modify(op, regs)
            },
            OpCode::Pha | OpCode::Php | OpCode::Pla | OpCode::Plp => self.exec_stack(op, regs),
            OpCode::Jmp | OpCode::Jsr | OpCode::Rts | OpCode::Rti | OpCode::Brk | OpCode::Bcc
            | OpCode::Bcs | OpCode::Beq | OpCode::Bmi | OpCode::Bne | OpCode::Bpl | OpCode::Bvc
            | OpCode::Bvs => self.exec_control(op, regs),
            _ => {
                let out = implied_result_exec(op.0, regs)?;
                Ok(Effect { regs: out, writes: Vec::new(), cycles: op.2.count() })
            },
        }
    }

    /// The instruction at the program counter, decoded; the program counter
    /// stays.
    pub fn read_op(&self) -> (r: Result<Op, CpuError>)
        ensures
            r == peek_op(self.regs, self.addr.contents()),
            r matches Ok(op) ==> 2 <= op.2.base() <= 7,
    {
        let b = self.read(self.regs.PC)?;
        proof {
            lemma_decode_cycles(b);
        }
        match Op::decode(b) {
            Some(op) => Ok(op),
            None => Err(CpuError::BadOpCode(b)),
        }
    }

    /// The first address among `ws` that the device does not serve.
    pub(crate) fn check_writes(&self, ws: &Vec<(Word, Byte)>) -> (r: Option<Word>)
        ensures
            r == unserved(self.addr.contents(), ws@),
    {
        let ghost mem = self.addr.contents();
        assert(ws@.subrange(0, ws@.len() as int) =~= ws@);
        let mut i: usize = 0;
        while i < ws.len()
            invariant
                i <= ws@.len(),
                mem == self.addr.contents(),
                unserved(mem, ws@) == unserved(mem, ws@.subrange(i as int, ws@.len() as int)),
            decreases ws@.len() - i,
        {
            let ghost rest = ws@.subrange(i as int, ws@.len() as int);
            assert(rest.drop_first() =~= ws@.subrange(i + 1, ws@.len() as int));
            assert(rest[0] == ws@[i as int]);
            if !self.addr.inside_bounds(ws[i].0) {
                return Some(ws[i].0);
            }
            i = i + 1;
        }
        assert(ws@.subrange(i as int, ws@.len() as int).len() == 0);
        None
    }

    /// Performs the writes `ws` in order; every address is served.
    pub(crate) fn commit(&mut self, ws: &Vec<(Word, Byte)>)
        requires
            unserved(old(self).addr.contents(), ws@) is None,
        ensures
            final(self).addr.contents() == apply(old(self).addr.contents(), ws@),
            final(self).regs == old(self).regs,
            final(self).mode == old(self).mode,
    {
        let ghost mem = self.addr.contents();
        proof {
            lemma_served(mem, ws@);
        }
        let mut i: usize = 0;
        while i < ws.len()
            invariant
                i <= ws@.len(),
                forall|j: int| 0 <= j < ws@.len() ==> mem.dom().contains(#[trigger] ws@[j].0),
                self.addr.contents() == apply(mem, ws@.take(i as int)),
                self.addr.contents().dom() == mem.dom(),
                self.regs == old(self).regs,
                self.mode == old(self).mode,
            decreases ws@.len() - i,
        {
            let (a, v) = ws[i];
            assert(ws@.take(i + 1).drop_last() =~= ws@.take(i as int));
            assert(mem.dom().contains(ws@[i as int].0));
            self.addr.write(a, v);
            assert(self.addr.contents().dom() =~= mem.dom());
            i = i + 1;
        }
        assert(ws@.take(i as int) =~= ws@);
    }

    /// Fetches, decodes and executes the instruction at the program counter,
    /// without changing anything.
    pub(crate) fn step(&self) -> (r: Result<Effect, CpuError>)
        ensures
            outcome(r) == step(self.regs, self.addr.contents()),
            r matches Ok(e) ==> 2 <= e.cycles <= 9 && unserved(self.addr.contents(), e.writes@) is None,
    {
        reveal(step);
        let op = self.read_op()?;
        let regs = Registers { PC: advance(self.regs.PC, 1), ..self.regs };
        let eff = self.execute(op, regs)?;
        match self.check_writes(&eff.writes) {
            Some(a) => Err(CpuError::OutOfBounds(a)),
            None => Ok(eff),
        }
    }
}

/// Moving the stack pointer up one slot at a time.
proof fn lemma_stack_up(sp: Byte)
    ensures
        above(sp, 1) == stack_at(((sp + 1) % 256) as Byte),
        above(sp, 2) == stack_at(((((sp + 1) % 256) as Byte + 1) % 256) as Byte),
        above(sp, 3) == stack_at(((((sp + 2) % 256) as Byte + 1) % 256) as Byte),
        ((((sp + 1) % 256) as Byte + 1) % 256) as Byte == ((sp + 2) % 256) as Byte,
        ((((sp + 2) % 256) as Byte + 1) % 256) as Byte == ((sp + 3) % 256) as Byte,
{
}

/// Every decoded instruction takes from two to seven base cycles.
proof fn lemma_decode_cycles(b: Byte)
    ensures
        decode(b) matches Some(op) ==> 2 <= op.2.base() <= 7,
{
    reveal(decode);
}

/// When no write address is unserved, every write address is served.
proof fn lemma_served(mem: Map<Word, Byte>, ws: Seq<(Word, Byte)>)
    requires
        unserved(mem, ws) is None,
    ensures
        forall|j: int| 0 <= j < ws.len() ==> mem.dom().contains(#[trigger] ws[j].0),
    decreases ws.len(),
{
    if ws.len() > 0 {
        lemma_served(mem, ws.drop_first());
        assert forall|j: int| 0 <= j < ws.len() implies mem.dom().contains(#[trigger] ws[j].0) by {
            if j > 0 {
                assert(ws[j] == ws.drop_first()[j - 1]);
            }
        }
    }
}

} // verus!
