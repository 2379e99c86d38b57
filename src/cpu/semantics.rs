//! What one instruction does, stated over the registers and the bytes that
//! memory serves. An instruction reads memory, then yields its new registers,
//! the bytes it writes, and the cycles it takes.
use vstd::prelude::*;

use crate::cpu::address::{high_of, low_of, word_of};
use crate::cpu::alu::{
    add_spec, compare_spec, negative, shift_left_spec, shift_right_spec, signed, sub_spec,
};
use crate::cpu::instructions::{decode, AddressMode, Cycles, Op, OpCode};
use crate::cpu::registers::{
    decimal_in, sp_down, stack_at, status_of, with_status, with_zn, Registers,
};
use crate::cpu::{CpuError, Machine, Mode};
use crate::{Byte, Word};

verus! {

/// The NMI vector.
pub const NMIB: Word = 0xFFFA;
/// The reset vector.
pub const RESB: Word = 0xFFFC;
/// The IRQ and BRK vector.
pub const IRQB: Word = 0xFFFE;

/// `w` reduced to 16 bits.
pub open spec fn wrap(w: int) -> Word {
    (w % 0x10000) as Word
}

/// The page of an address.
pub open spec fn page(w: Word) -> int {
    w as int / 256
}

/// The byte at `a`, or the error of reading an address nothing serves.
pub open spec fn rd(mem: Map<Word, Byte>, a: Word) -> Result<Byte, CpuError> {
    if mem.dom().contains(a) {
        Ok(mem[a])
    } else {
        Err(CpuError::OutOfBounds(a))
    }
}

/// The little-endian word with its low byte at `lo_at` and its high byte at
/// `hi_at`.
pub open spec fn rd_word(mem: Map<Word, Byte>, lo_at: Word, hi_at: Word) -> Result<Word, CpuError> {
    match rd(mem, lo_at) {
        Err(e) => Err(e),
        Ok(lo) => match rd(mem, hi_at) {
            Err(e) => Err(e),
            Ok(hi) => Ok(word_of(lo, hi)),
        },
    }
}

/// Where an operand lives, where the next instruction starts, and whether
/// indexing crossed a page.
#[derive(Clone, Copy, Debug, PartialEq, Eq, Structural)]
pub struct Operand {
    pub addr: Word,
    pub next: Word,
    pub crossed: bool,
}

/// An absolute address indexed by `i`.
pub open spec fn indexed(base: Word, i: Byte, next: Word) -> Operand {
    let addr = wrap(base + i);
    Operand { addr, next, crossed: page(base) != page(addr) }
}

/// The operand address of `mode` for an instruction whose operand bytes
/// start at `r.PC`.
#[verifier::opaque]
pub open spec fn operand(mode: AddressMode, r: Registers, mem: Map<Word, Byte>) -> Result<Operand, CpuError> {
    let pc = r.PC;
    let one = wrap(pc + 1);
    let two = wrap(pc + 2);
    match mode {
        AddressMode::Immediate => Ok(Operand { addr: pc, next: one, crossed: false }),
        AddressMode::ZeroPage => match rd(mem, pc) {
            Err(e) => Err(e),
            Ok(d) => Ok(Operand { addr: d as Word, next: one, crossed: false }),
        },
        AddressMode::ZeroPageX => match rd(mem, pc) {
            Err(e) => Err(e),
            Ok(d) => Ok(Operand { addr: ((d + r.X) % 256) as Word, next: one, crossed: false }),
        },
        AddressMode::ZeroPageY => match rd(mem, pc) {
            Err(e) => Err(e),
            Ok(d) => Ok(Operand { addr: ((d + r.Y) % 256) as Word, next: one, crossed: false }),
        },
        AddressMode::Absolute => match rd_word(mem, pc, one) {
            Err(e) => Err(e),
            Ok(w) => Ok(Operand { addr: w, next: two, crossed: false }),
        },
        AddressMode::AbsoluteX => match rd_word(mem, pc, one) {
            Err(e) => Err(e),
            Ok(w) => Ok(indexed(w, r.X, two)),
        },
        AddressMode::AbsoluteY => match rd_word(mem, pc, one) {
            Err(e) => Err(e),
            Ok(w) => Ok(indexed(w, r.Y, two)),
        },
        AddressMode::Indirect => match rd_word(mem, pc, one) {
            Err(e) => Err(e),
            Ok(p) => match rd_word(mem, p, wrap(p + 1)) {
                Err(e) => Err(e),
                Ok(w) => Ok(Operand { addr: w, next: two, crossed: false }),
            },
        },
        AddressMode::IndexedIndirect => match rd(mem, pc) {
            Err(e) => Err(e),
            Ok(d) => {
                let z = (d + r.X) % 256;
                match rd_word(mem, z as Word, ((z + 1) % 256) as Word) {
                    Err(e) => Err(e),
                    Ok(w) => Ok(Operand { addr: w, next: one, crossed: false }),
                }
            },
        },
        AddressMode::IndirectIndexed => match rd(mem, pc) {
            Err(e) => Err(e),
            Ok(d) => match rd_word(mem, d as Word, ((d + 1) % 256) as Word) {
                Err(e) => Err(e),
                Ok(w) => Ok(indexed(w, r.Y, one)),
            },
        },
        _ => Err(CpuError::InvalidAddressMode),
    }
}

/// What an instruction leaves behind: its registers, the bytes it writes in
/// order, and the cycles it took.
pub ghost struct Change {
    pub regs: Registers,
    pub writes: Seq<(Word, Byte)>,
    pub cycles: int,
}

/// An instruction that writes nothing.
pub open spec fn no_writes(regs: Registers, cycles: int) -> Change {
    Change { regs, writes: seq![], cycles }
}

/// The extra cycle of an indexed read that crossed a page.
pub open spec fn page_penalty(c: Cycles, o: Operand) -> int {
    match c {
        Cycles::Page(_) => if o.crossed { 1 } else { 0 },
        _ => 0,
    }
}

/// The registers after an instruction that reads the byte `m`: loads,
/// logic, BIT, arithmetic and compares.
pub open spec fn read_result(op: OpCode, r: Registers, m: Byte) -> Result<Registers, CpuError> {
    match op {
        OpCode::Lda => Ok(with_zn(Registers { A: m, ..r }, m)),
        OpCode::Ldx => Ok(with_zn(Registers { X: m, ..r }, m)),
        OpCode::Ldy => Ok(with_zn(Registers { Y: m, ..r }, m)),
        OpCode::And => Ok(with_zn(Registers { A: r.A & m, ..r }, r.A & m)),
        OpCode::Eor => Ok(with_zn(Registers { A: r.A ^ m, ..r }, r.A ^ m)),
        OpCode::Ora => Ok(with_zn(Registers { A: r.A | m, ..r }, r.A | m)),
        OpCode::Bit => Ok(Registers { Z: r.A & m == 0, N: negative(m), V: (m / 64) % 2 == 1, ..r }),
        OpCode::Adc => if r.D {
            Err(CpuError::DecimalModeUnsupported)
        } else {
            let s = add_spec(r.A, m, r.C);
            Ok(with_zn(Registers { A: s.value, C: s.carry, V: s.overflow, ..r }, s.value))
        },
        OpCode::Sbc => if r.D {
            Err(CpuError::DecimalModeUnsupported)
        } else {
            let s = sub_spec(r.A, m, r.C);
            Ok(with_zn(Registers { A: s.value, C: s.carry, V: s.overflow, ..r }, s.value))
        },
        OpCode::Cmp => {
            let f = compare_spec(r.A, m);
            Ok(Registers { C: f.0, Z: f.1, N: f.2, ..r })
        },
        OpCode::Cpx => {
            let f = compare_spec(r.X, m);
            Ok(Registers { C: f.0, Z: f.1, N: f.2, ..r })
        },
        OpCode::Cpy => {
            let f = compare_spec(r.Y, m);
            Ok(Registers { C: f.0, Z: f.1, N: f.2, ..r })
        },
        _ => Err(CpuError::InvalidAddressMode),
    }
}

/// Instructions that read an operand: `r.PC` is just past the opcode.
pub open spec fn read_step(op: Op, r: Registers, mem: Map<Word, Byte>) -> Result<Change, CpuError> {
    match operand(op.1, r, mem) {
        Err(e) => Err(e),
        Ok(o) => match rd(mem, o.addr) {
            Err(e) => Err(e),
            Ok(m) => match read_result(op.0, Registers { PC: o.next, ..r }, m) {
                Err(e) => Err(e),
                Ok(regs) => Ok(
                    Change { regs, writes: seq![], cycles: op.2.base() + page_penalty(op.2, o) },
                ),
            },
        },
    }
}

/// Stores: STA, STX, STY.
pub open spec fn store_step(op: Op, r: Registers, mem: Map<Word, Byte>) -> Result<Change, CpuError> {
    let v = match op.0 {
        OpCode::Sta => r.A,
        OpCode::Stx => r.X,
        _ => r.Y,
    };
    match operand(op.1, r, mem) {
        Err(e) => Err(e),
        Ok(o) => Ok(
            Change {
                regs: Registers { PC: o.next, ..r },
                writes: seq![(o.addr, v)],
                cycles: op.2.base() as int,
            },
        ),
    }
}

/// The new value and carry of a read-modify-write instruction on `v`.
pub open spec fn modify(op: OpCode, v: Byte, c: bool) -> (Byte, bool) {
    match op {
        OpCode::Inc => (((v + 1) % 256) as Byte, c),
        OpCode::Dec => (((v + 255) % 256) as Byte, c),
        OpCode::Asl => shift_left_spec(v, false),
        OpCode::Rol => shift_left_spec(v, c),
        OpCode::Lsr => shift_right_spec(v, false),
        _ => shift_right_spec(v, c),
    }
}

/// Read-modify-write instructions: INC, DEC, ASL, LSR, ROL, ROR, on the
/// accumulator or on memory.
pub open spec fn modify_step(op: Op, r: Registers, mem: Map<Word, Byte>) -> Result<Change, CpuError> {
    if op.1 == AddressMode::Accumulator {
        let (v, c) = modify(op.0, r.A, r.C);
        Ok(no_writes(with_zn(Registers { A: v, C: c, ..r }, v), op.2.base() as int))
    } else {
        match operand(op.1, r, mem) {
            Err(e) => Err(e),
            Ok(o) => match rd(mem, o.addr) {
                Err(e) => Err(e),
                Ok(m) => {
                    let (v, c) = modify(op.0, m, r.C);
                    Ok(
                        Change {
                            regs: with_zn(Registers { PC: o.next, C: c, ..r }, v),
                            writes: seq![(o.addr, v)],
                            cycles: op.2.base() as int,
                        },
                    )
                },
            },
        }
    }
}

/// An instruction that changes registers only and reads nothing.
pub open spec fn implied_result(op: OpCode, r: Registers) -> Result<Registers, CpuError> {
    match op {
        OpCode::Tax => Ok(with_zn(Registers { X: r.A, ..r }, r.A)),
        OpCode::Tay => Ok(with_zn(Registers { Y: r.A, ..r }, r.A)),
        OpCode::Txa => Ok(with_zn(Registers { A: r.X, ..r }, r.X)),
        OpCode::Tya => Ok(with_zn(Registers { A: r.Y, ..r }, r.Y)),
        OpCode::Tsx => Ok(with_zn(Registers { X: r.SP, ..r }, r.SP)),
        OpCode::Txs => Ok(Registers { SP: r.X, ..r }),
        OpCode::Inx => Ok(with_zn(Registers { X: ((r.X + 1) % 256) as Byte, ..r }, ((r.X + 1) % 256) as Byte)),
        OpCode::Iny => Ok(with_zn(Registers { Y: ((r.Y + 1) % 256) as Byte, ..r }, ((r.Y + 1) % 256) as Byte)),
        OpCode::Dex => Ok(with_zn(Registers { X: ((r.X + 255) % 256) as Byte, ..r }, ((r.X + 255) % 256) as Byte)),
        OpCode::Dey => Ok(with_zn(Registers { Y: ((r.Y + 255) % 256) as Byte, ..r }, ((r.Y + 255) % 256) as Byte)),
        OpCode::Clc => Ok(Registers { C: false, ..r }),
        OpCode::Cld => Ok(Registers { D: false, ..r }),
        OpCode::Cli => Ok(Registers { I: false, ..r }),
        OpCode::Clv => Ok(Registers { V: false, ..r }),
        OpCode::Sec => Ok(Registers { C: true, ..r }),
        OpCode::Sei => Ok(Registers { I: true, ..r }),
        OpCode::Sed => Err(CpuError::DecimalModeUnsupported),
        _ => Ok(r),
    }
}

/// The stack slot `k` places above the pointer.
pub open spec fn above(sp: Byte, k: int) -> Word {
    stack_at(((sp + k) % 256) as Byte)
}

/// Stack instructions: PHA, PHP, PLA, PLP.
pub open spec fn stack_step(op: Op, r: Registers, mem: Map<Word, Byte>) -> Result<Change, CpuError> {
    let cycles = op.2.base() as int;
    match op.0 {
        OpCode::Pha => Ok(Change { regs: Registers { SP: sp_down(r.SP, 1), ..r }, writes: seq![(stack_at(r.SP), r.A)], cycles }),
        OpCode::Php => Ok(Change { regs: Registers { SP: sp_down(r.SP, 1), ..r }, writes: seq![(stack_at(r.SP), status_of(r))], cycles }),
        OpCode::Pla => match rd(mem, above(r.SP, 1)) {
            Err(e) => Err(e),
            Ok(v) => {
                let regs = Registers { A: v, SP: ((r.SP + 1) % 256) as Byte, ..r };
                Ok(no_writes(with_zn(regs, v), cycles))
            },
        },
        _ => match rd(mem, above(r.SP, 1)) {
            Err(e) => Err(e),
            Ok(s) => if decimal_in(s) {
                Err(CpuError::DecimalModeUnsupported)
            } else {
                Ok(no_writes(with_status(Registers { SP: ((r.SP + 1) % 256) as Byte, ..r }, s), cycles))
            },
        },
    }
}

/// Whether a branch instruction's condition holds.
pub open spec fn branch_taken(op: OpCode, r: Registers) -> bool {
    match op {
        OpCode::Bcc => !r.C,
        OpCode::Bcs => r.C,
        OpCode::Beq => r.Z,
        OpCode::Bmi => r.N,
        OpCode::Bne => !r.Z,
        OpCode::Bpl => !r.N,
        OpCode::Bvc => !r.V,
        _ => r.V,
    }
}

/// The interrupt sequence through `vector`, for a processor whose program
/// counter is one past the instruction to return after: push the return
/// address less one (high byte first) and the status byte, disable
/// interrupts, and jump to the vector's target.
pub open spec fn enter_interrupt(r: Registers, mem: Map<Word, Byte>, vector: Word, cycles: int) -> Result<Change, CpuError> {
    let ret = wrap(r.PC - 1);
    match rd_word(mem, vector, wrap(vector + 1)) {
        Err(e) => Err(e),
        Ok(target) => Ok(
            Change {
                regs: Registers { PC: target, SP: sp_down(r.SP, 3), I: true, ..r },
                writes: seq![
                    (stack_at(r.SP), high_of(ret)),
                    (stack_at(sp_down(r.SP, 1)), low_of(ret)),
                    (stack_at(sp_down(r.SP, 2)), status_of(r)),
                ],
                cycles,
            },
        ),
    }
}

/// JMP and JSR.
pub open spec fn jump_step(op: Op, r: Registers, mem: Map<Word, Byte>) -> Result<Change, CpuError> {
    let cycles = op.2.base() as int;
    match operand(op.1, r, mem) {
        Err(e) => Err(e),
        Ok(o) => if op.0 == OpCode::Jmp {
            Ok(no_writes(Registers { PC: o.addr, ..r }, cycles))
        } else {
            let ret = wrap(o.next - 1);
            Ok(
                Change {
                    regs: Registers { PC: o.addr, SP: sp_down(r.SP, 2), ..r },
                    writes: seq![(stack_at(r.SP), high_of(ret)), (stack_at(sp_down(r.SP, 1)), low_of(ret))],
                    cycles,
                },
            )
        },
    }
}

/// RTS and RTI: both pull a return address and resume one past it.
pub open spec fn return_step(op: Op, r: Registers, mem: Map<Word, Byte>) -> Result<Change, CpuError> {
    let cycles = op.2.base() as int;
    if op.0 == OpCode::Rts {
        match rd_word(mem, above(r.SP, 1), above(r.SP, 2)) {
            Err(e) => Err(e),
            Ok(w) => {
                let regs = Registers { PC: wrap(w + 1), SP: ((r.SP + 2) % 256) as Byte, ..r };
                Ok(no_writes(regs, cycles))
            },
        }
    } else {
        match rd(mem, above(r.SP, 1)) {
            Err(e) => Err(e),
            Ok(s) => if decimal_in(s) {
                Err(CpuError::DecimalModeUnsupported)
            } else {
                match rd_word(mem, above(r.SP, 2), above(r.SP, 3)) {
                    Err(e) => Err(e),
                    Ok(w) => {
                        let regs = Registers { PC: wrap(w + 1), SP: ((r.SP + 3) % 256) as Byte, ..r };
                        Ok(no_writes(with_status(regs, s), cycles))
                    },
                }
            },
        }
    }
}

/// The conditional branches: a signed offset from the next instruction.
pub open spec fn branch_step(op: Op, r: Registers, mem: Map<Word, Byte>) -> Result<Change, CpuError> {
    let cycles = op.2.base() as int;
    match rd(mem, r.PC) {
        Err(e) => Err(e),
        Ok(d) => {
            let next = wrap(r.PC + 1);
            if branch_taken(op.0, r) {
                let target = wrap(next + signed(d));
                let extra = if page(next) == page(target) { 1int } else { 2int };
                Ok(no_writes(Registers { PC: target, ..r }, cycles + extra))
            } else {
                Ok(no_writes(Registers { PC: next, ..r }, cycles))
            }
        },
    }
}

/// Jumps, calls, returns, branches, BRK and RTI.
pub open spec fn control_step(op: Op, r: Registers, mem: Map<Word, Byte>) -> Result<Change, CpuError> {
    match op.0 {
        OpCode::Jmp | OpCode::Jsr => jump_step(op, r, mem),
        OpCode::Rts | OpCode::Rti => return_step(op, r, mem),
        OpCode::Brk => if r.I {
            Ok(no_writes(r, op.2.base() as int))
        } else {
            enter_interrupt(r, mem, IRQB, op.2.base() as int)
        },
        _ => branch_step(op, r, mem),
    }
}

/// The family an instruction belongs to.
pub enum Family {
    Read,
    Store,
    Modify,
    Implied,
    Stack,
    Control,
}

/// The family of an instruction.
pub open spec fn family(op: OpCode) -> Family {
    match op {
        OpCode::Lda | OpCode::Ldx | OpCode::Ldy | OpCode::And | OpCode::Eor | OpCode::Ora
        | OpCode::Bit | OpCode::Adc | OpCode::Sbc | OpCode::Cmp | OpCode::Cpx | OpCode::Cpy => Family::Read,
        OpCode::Sta | OpCode::Stx | OpCode::Sty => Family::Store,
        OpCode::Inc | OpCode::Dec | OpCode::Asl | OpCode::Lsr | OpCode::Rol | OpCode::Ror => Family::Modify,
        OpCode::Pha | OpCode::Php | OpCode::Pla | OpCode::Plp => Family::Stack,
        OpCode::Jmp | OpCode::Jsr | OpCode::Rts | OpCode::Rti | OpCode::Brk | OpCode::Bcc
        | OpCode::Bcs | OpCode::Beq | OpCode::Bmi | OpCode::Bne | OpCode::Bpl | OpCode::Bvc
        | OpCode::Bvs => Family::Control,
        _ => Family::Implied,
    }
}

/// What a decoded instruction does; `r.PC` is just past its opcode.
#[verifier::opaque]
pub open spec fn execute(op: Op, r: Registers, mem: Map<Word, Byte>) -> Result<Change, CpuError> {
    match family(op.0) {
        Family::Read => read_step(op, r, mem),
        Family::Store => store_step(op, r, mem),
        Family::Modify => modify_step(op, r, mem),
        Family::Stack => stack_step(op, r, mem),
        Family::Control => control_step(op, r, mem),
        Family::Implied => match implied_result(op.0, r) {
            Err(e) => Err(e),
            Ok(regs) => Ok(Change { regs, writes: seq![], cycles: op.2.base() as int }),
        },
    }
}

/// The first address among `ws` that memory does not serve.
pub open spec fn unserved(mem: Map<Word, Byte>, ws: Seq<(Word, Byte)>) -> Option<Word>
    decreases ws.len(),
{
    if ws.len() == 0 {
        None
    } else if !mem.dom().contains(ws[0].0) {
        Some(ws[0].0)
    } else {
        unserved(mem, ws.drop_first())
    }
}

/// Memory after the writes `ws`, in order.
pub open spec fn apply(mem: Map<Word, Byte>, ws: Seq<(Word, Byte)>) -> Map<Word, Byte>
    decreases ws.len(),
{
    if ws.len() == 0 {
        mem
    } else {
        apply(mem, ws.drop_last()).insert(ws.last().0, ws.last().1)
    }
}

/// The instruction at `r.PC`, decoded.
pub open spec fn peek_op(r: Registers, mem: Map<Word, Byte>) -> Result<Op, CpuError> {
    match rd(mem, r.PC) {
        Err(e) => Err(e),
        Ok(b) => match decode(b) {
            None => Err(CpuError::BadOpCode(b)),
            Some(op) => Ok(op),
        },
    }
}

/// Fetching, decoding and executing the instruction at `r.PC`. It fails,
/// changing nothing, when a byte it needs is not served, when the opcode is
/// unassigned, or when the instruction itself refuses.
#[verifier::opaque]
pub open spec fn step(r: Registers, mem: Map<Word, Byte>) -> Result<Change, CpuError> {
    match peek_op(r, mem) {
        Err(e) => Err(e),
        Ok(op) => match execute(op, Registers { PC: wrap(r.PC + 1), ..r }, mem) {
            Err(e) => Err(e),
            Ok(c) => match unserved(mem, c.writes) {
                Some(a) => Err(CpuError::OutOfBounds(a)),
                None => Ok(c),
            },
        },
    }
}

/// The mode after an instruction of `cycles` cycles: in cycle-counted mode
/// the fetch took one of them and the rest are still to burn.
pub open spec fn mode_after(mode: Mode, cycles: int) -> Mode {
    match mode {
        Mode::Fast => Mode::Fast,
        Mode::Original(_) => Mode::Original((cycles - 1) as u8),
    }
}

/// Whether cycles of the last instruction are still to burn.
pub open spec fn burning(mode: Mode) -> bool {
    match mode {
        Mode::Original(n) => n > 0,
        Mode::Fast => false,
    }
}

/// One clock tick. In cycle-counted mode with cycles left to burn it only
/// counts one down; otherwise it executes one instruction. A failed tick
/// changes nothing.
pub open spec fn tick_spec(m: Machine) -> Result<Machine, CpuError> {
    if burning(m.mode) {
        Ok(Machine { mode: Mode::Original((m.mode->Original_0 - 1) as u8), ..m })
    } else {
        match step(m.regs, m.mem) {
            Err(e) => Err(e),
            Ok(c) => Ok(Machine { regs: c.regs, mode: mode_after(m.mode, c.cycles), mem: apply(m.mem, c.writes) }),
        }
    }
}

/// The reset sequence: the program counter from the reset vector, an empty
/// stack, zeroed A, X and Y, and interrupt-disable, decimal and break clear.
/// Carry, zero, overflow and negative stay. A pending cycle count is dropped.
pub open spec fn reset_spec(m: Machine) -> Result<Machine, CpuError> {
    match rd_word(m.mem, RESB, wrap(RESB + 1)) {
        Err(e) => Err(CpuError::ResetFailed(failed_address(e))),
        Ok(pc) => Ok(
            Machine {
                regs: Registers { PC: pc, SP: 0xFF, A: 0, X: 0, Y: 0, I: false, D: false, B: false, ..m.regs },
                mode: match m.mode {
                    Mode::Fast => Mode::Fast,
                    Mode::Original(_) => Mode::Original(0),
                },
                mem: m.mem,
            },
        ),
    }
}

/// The address a failed memory access names.
pub open spec fn failed_address(e: CpuError) -> Word {
    match e {
        CpuError::OutOfBounds(a) => a,
        _ => 0,
    }
}

/// The vector an interrupt kind goes through: 0 is IRQ, any other kind NMI.
pub open spec fn vector_of(kind: u8) -> Word {
    if kind == 0 { IRQB } else { NMIB }
}

/// An external interrupt between instructions. An IRQ while interrupts are
/// disabled is ignored; otherwise the interrupt sequence runs through the
/// kind's vector. A failed interrupt changes nothing.
pub open spec fn interrupt_spec(m: Machine, kind: u8) -> Result<Machine, CpuError> {
    if kind == 0 && m.regs.I {
        Ok(m)
    } else {
        match enter_interrupt(m.regs, m.mem, vector_of(kind), 7) {
            Err(e) => Err(CpuError::InterruptFailed(failed_address(e))),
            Ok(c) => match unserved(m.mem, c.writes) {
                Some(a) => Err(CpuError::InterruptFailed(a)),
                None => Ok(Machine { regs: c.regs, mode: m.mode, mem: apply(m.mem, c.writes) }),
            },
        }
    }
}

} // verus!
