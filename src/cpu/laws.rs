//! Properties of whole instructions, proved from the semantics.
use vstd::prelude::*;

use crate::cpu::address::{high_of, lemma_round_trip, low_of, word_of};
use crate::cpu::alu::signed;
use crate::cpu::instructions::{decode, AddressMode, Cycles, Op, OpCode};
use crate::cpu::registers::{sp_down, stack_at, Registers};
use crate::cpu::semantics::{
    above, apply, branch_step, branch_taken, execute, operand, peek_op, read_step,
    reset_spec, stack_step,
    return_step, step, unserved, wrap, Change, Operand,
};
use crate::cpu::{CpuError, Machine};
use crate::{Byte, Word};

verus! {

/// Whether `op` is one of the eight conditional branches.
pub open spec fn is_branch(op: OpCode) -> bool {
    matches!(op, OpCode::Bcc | OpCode::Bcs | OpCode::Beq | OpCode::Bmi | OpCode::Bne | OpCode::Bpl
        | OpCode::Bvc | OpCode::Bvs)
}

/// The opcode bytes of the eight conditional branches.
pub open spec fn is_branch_opcode(b: Byte) -> bool {
    b == 0x90 || b == 0xB0 || b == 0xF0 || b == 0x30 || b == 0xD0 || b == 0x10 || b == 0x50 || b
        == 0x70
}

/// Whether memory serves `a` and holds `b` there.
pub open spec fn holds(mem: Map<Word, Byte>, a: Word, b: Byte) -> bool {
    mem.dom().contains(a) && mem[a] == b
}

/// The branch opcodes decode to relative branches of two base cycles.
proof fn lemma_decode_branch(b: Byte)
    requires
        is_branch_opcode(b),
    ensures
        decode(b) matches Some(op) && is_branch(op.0) && op.1 == AddressMode::Relative && op.2
            == Cycles::Branch(2),
{
    reveal(decode);
}

/// One step of a decoded instruction that writes nothing.
proof fn lemma_step_of(r: Registers, mem: Map<Word, Byte>, op: Op)
    requires
        peek_op(r, mem) == Ok::<Op, CpuError>(op),
        execute(op, Registers { PC: wrap(r.PC + 1), ..r }, mem) matches Ok(c) && c.writes.len()
            == 0,
    ensures
        step(r, mem) == execute(op, Registers { PC: wrap(r.PC + 1), ..r }, mem),
{
    reveal(step);
}

/// A branch with offset `delta` (stored as its two's-complement byte) lands
/// `delta` bytes from the instruction after it when taken, and on that
/// instruction when not.
pub proof fn lemma_branch_displacement(m: Machine, opcode: Byte, delta: int)
    requires
        -128 <= delta <= 127,
        is_branch_opcode(opcode),
        holds(m.mem, m.regs.PC, opcode),
        holds(m.mem, wrap(m.regs.PC + 1), (delta % 256) as Byte),
    ensures
        step(m.regs, m.mem) matches Ok(c) && c.regs.PC == if branch_taken(
            decode(opcode)->Some_0.0,
            m.regs,
        ) {
            wrap(m.regs.PC + 2 + delta)
        } else {
            wrap(m.regs.PC + 2)
        },
{
    lemma_decode_branch(opcode);
    let op = decode(opcode)->Some_0;
    let r1 = Registers { PC: wrap(m.regs.PC + 1), ..m.regs };
    let d = (delta % 256) as Byte;
    assert(signed(d) == delta);
    assert(peek_op(m.regs, m.mem) == Ok::<Op, CpuError>(op));
    assert(branch_taken(op.0, r1) == branch_taken(op.0, m.regs));
    assert(execute(op, r1, m.mem) == branch_step(op, r1, m.mem)) by {
        reveal(execute);
    }
    lemma_step_of(m.regs, m.mem, op);
}

/// The wrap-around arithmetic of a return address.
proof fn lemma_wrap_back(pc: Word)
    ensures
        wrap(wrap(pc + 3) - 1) == wrap(pc + 2),
        wrap(wrap(wrap(pc + 1) + 1) + 1) == wrap(pc + 3),
        wrap(wrap(pc + 1) + 2) == wrap(pc + 3),
{
}

/// What JSR's execution yields once its operand is known.
proof fn lemma_jsr_change(r1: Registers, mem: Map<Word, Byte>, target: Word, next: Word)
    requires
        operand(AddressMode::Absolute, r1, mem) == Ok::<Operand, CpuError>(
            Operand { addr: target, next, crossed: false },
        ),
    ensures
        execute(Op(OpCode::Jsr, AddressMode::Absolute, Cycles::Constant(6)), r1, mem)
            == Ok::<Change, CpuError>(
            Change {
                regs: Registers { PC: target, SP: sp_down(r1.SP, 2), ..r1 },
                writes: seq![
                    (stack_at(r1.SP), high_of(wrap(next - 1))),
                    (stack_at(sp_down(r1.SP, 1)), low_of(wrap(next - 1))),
                ],
                cycles: 6,
            },
        ),
{
    reveal(execute);
}

/// Two writes to served addresses leave nothing unserved.
proof fn lemma_two_served(mem: Map<Word, Byte>, ws: Seq<(Word, Byte)>)
    requires
        ws.len() == 2,
        mem.dom().contains(ws[0].0),
        mem.dom().contains(ws[1].0),
    ensures
        unserved(mem, ws) is None,
{
    assert(ws.drop_first()[0] == ws[1]);
    assert(ws.drop_first().drop_first().len() == 0);
    reveal_with_fuel(unserved, 3);
}

/// One JSR: it jumps to its target and pushes the address of its own last
/// byte, high byte first.
proof fn lemma_call(m: Machine, target: Word)
    requires
        holds(m.mem, m.regs.PC, 0x20),
        holds(m.mem, wrap(m.regs.PC + 1), low_of(target)),
        holds(m.mem, wrap(m.regs.PC + 2), high_of(target)),
        m.mem.dom().contains(stack_at(m.regs.SP)),
        m.mem.dom().contains(stack_at(sp_down(m.regs.SP, 1))),
    ensures
        step(m.regs, m.mem) matches Ok(c) && c.regs.PC == target && c.regs.SP == sp_down(
            m.regs.SP,
            2,
        ) && c.writes == seq![
            (stack_at(m.regs.SP), high_of(wrap(m.regs.PC + 2))),
            (stack_at(sp_down(m.regs.SP, 1)), low_of(wrap(m.regs.PC + 2))),
        ],
{
    let pc = m.regs.PC;
    let jsr = Op(OpCode::Jsr, AddressMode::Absolute, Cycles::Constant(6));
    assert(decode(0x20) == Some(jsr)) by {
        reveal(decode);
    }
    let r1 = Registers { PC: wrap(pc + 1), ..m.regs };
    lemma_round_trip(target);
    lemma_wrap_back(pc);
    assert(operand(AddressMode::Absolute, r1, m.mem) == Ok::<Operand, CpuError>(
        Operand { addr: target, next: wrap(pc + 3), crossed: false },
    )) by {
        reveal(operand);
    }
    assert(peek_op(m.regs, m.mem) == Ok::<Op, CpuError>(jsr));
    lemma_jsr_change(r1, m.mem, target, wrap(pc + 3));
    let c = execute(jsr, r1, m.mem)->Ok_0;
    lemma_two_served(m.mem, c.writes);
    assert(step(m.regs, m.mem) == execute(jsr, r1, m.mem)) by {
        reveal(step);
    }
}

/// One RTS: it pulls a return address, low byte first, and resumes one
/// past it.
proof fn lemma_return(later: Machine, lo: Byte, hi: Byte)
    requires
        holds(later.mem, later.regs.PC, 0x60),
        holds(later.mem, above(later.regs.SP, 1), lo),
        holds(later.mem, above(later.regs.SP, 2), hi),
    ensures
        step(later.regs, later.mem) matches Ok(c) && c.regs.PC == wrap(word_of(lo, hi) + 1)
            && c.regs.SP == ((later.regs.SP + 2) % 256) as Byte,
{
    let rts = Op(OpCode::Rts, AddressMode::Implicit, Cycles::Constant(6));
    assert(decode(0x60) == Some(rts)) by {
        reveal(decode);
    }
    let r2 = Registers { PC: wrap(later.regs.PC + 1), ..later.regs };
    assert(peek_op(later.regs, later.mem) == Ok::<Op, CpuError>(rts));
    assert(execute(rts, r2, later.mem) == return_step(rts, r2, later.mem)) by {
        reveal(execute);
    }
    lemma_step_of(later.regs, later.mem, rts);
}

/// JSR pushes its return address less one, and an RTS that finds those two
/// bytes on top of the stack resumes at the instruction after the JSR,
/// three bytes past it, with the stack pointer as before the call.
pub proof fn lemma_call_return(m: Machine, target: Word, later: Machine)
    requires
        holds(m.mem, m.regs.PC, 0x20),
        holds(m.mem, wrap(m.regs.PC + 1), low_of(target)),
        holds(m.mem, wrap(m.regs.PC + 2), high_of(target)),
        m.mem.dom().contains(stack_at(m.regs.SP)),
        m.mem.dom().contains(stack_at(sp_down(m.regs.SP, 1))),
        holds(later.mem, later.regs.PC, 0x60),
        later.regs.SP == sp_down(m.regs.SP, 2),
        holds(later.mem, stack_at(m.regs.SP), high_of(wrap(m.regs.PC + 2))),
        holds(later.mem, stack_at(sp_down(m.regs.SP, 1)), low_of(wrap(m.regs.PC + 2))),
    ensures
        step(m.regs, m.mem) matches Ok(c) && c.regs.PC == target && c.regs.SP == sp_down(
            m.regs.SP,
            2,
        ) && c.writes == seq![
            (stack_at(m.regs.SP), high_of(wrap(m.regs.PC + 2))),
            (stack_at(sp_down(m.regs.SP, 1)), low_of(wrap(m.regs.PC + 2))),
        ],
        step(later.regs, later.mem) matches Ok(c) && c.regs.PC == wrap(m.regs.PC + 3) && c.regs.SP
            == m.regs.SP,
{
    let pc = m.regs.PC;
    let sp = m.regs.SP;
    lemma_call(m, target);
    assert(above(later.regs.SP, 1) == stack_at(sp_down(sp, 1)));
    assert(above(later.regs.SP, 2) == stack_at(sp));
    lemma_return(later, low_of(wrap(pc + 2)), high_of(wrap(pc + 2)));
    lemma_round_trip(wrap(pc + 2));
}

/// PHA followed by PLA: the accumulator's byte comes back and the stack
/// pointer is restored, whatever it was, when memory serves the stack slot
/// and the slot is not where the PLA sits.
pub proof fn lemma_push_pull(m: Machine)
    requires
        holds(m.mem, m.regs.PC, 0x48),
        holds(m.mem, wrap(m.regs.PC + 1), 0x68),
        m.mem.dom().contains(stack_at(m.regs.SP)),
        stack_at(m.regs.SP) != wrap(m.regs.PC + 1),
    ensures
        step(m.regs, m.mem) matches Ok(c1) && c1.regs.SP == sp_down(m.regs.SP, 1) && (step(
            c1.regs,
            apply(m.mem, c1.writes),
        ) matches Ok(c2) && c2.regs.A == m.regs.A && c2.regs.SP == m.regs.SP),
{
    let pc = m.regs.PC;
    let sp = m.regs.SP;
    let pha = Op(OpCode::Pha, AddressMode::Implicit, Cycles::Constant(3));
    let pla = Op(OpCode::Pla, AddressMode::Implicit, Cycles::Constant(4));
    assert(decode(0x48) == Some(pha)) by {
        reveal(decode);
    }
    assert(decode(0x68) == Some(pla)) by {
        reveal(decode);
    }
    let r1 = Registers { PC: wrap(pc + 1), ..m.regs };
    let ws = seq![(stack_at(sp), m.regs.A)];
    let c1 = Change { regs: Registers { SP: sp_down(sp, 1), ..r1 }, writes: ws, cycles: 3 };
    assert(peek_op(m.regs, m.mem) == Ok::<Op, CpuError>(pha));
    assert(execute(pha, r1, m.mem) == Ok::<Change, CpuError>(c1)) by {
        reveal(execute);
    }
    assert(unserved(m.mem, ws) is None) by {
        assert(ws.drop_first().len() == 0);
        reveal_with_fuel(unserved, 2);
    }
    assert(step(m.regs, m.mem) == Ok::<Change, CpuError>(c1)) by {
        reveal(step);
    }
    let mem1 = apply(m.mem, ws);
    assert(mem1 == m.mem.insert(stack_at(sp), m.regs.A)) by {
        assert(ws.drop_last().len() == 0);
        reveal_with_fuel(apply, 2);
    }
    let r2 = Registers { PC: wrap(c1.regs.PC + 1), ..c1.regs };
    assert(peek_op(c1.regs, mem1) == Ok::<Op, CpuError>(pla));
    assert(above(sp_down(sp, 1), 1) == stack_at(sp));
    assert(execute(pla, r2, mem1) == stack_step(pla, r2, mem1)) by {
        reveal(execute);
    }
    lemma_step_of(c1.regs, mem1, pla);
}

/// ADC with the carry clear: the accumulator becomes the low eight bits of
/// the sum, the carry is the sum's ninth bit, zero is set exactly when the
/// low bits are zero, and negative exactly when their bit 7 is set.
pub proof fn lemma_adc_flags(m: Machine, b: Byte)
    requires
        holds(m.mem, m.regs.PC, 0x69),
        holds(m.mem, wrap(m.regs.PC + 1), b),
        !m.regs.C,
        !m.regs.D,
    ensures
        step(m.regs, m.mem) matches Ok(c) && c.regs.A == (m.regs.A + b) % 256 && c.regs.C == (
        m.regs.A + b > 255) && c.regs.Z == ((m.regs.A + b) % 256 == 0) && c.regs.N == ((m.regs.A
            + b) % 256 >= 128),
{
    let adc = Op(OpCode::Adc, AddressMode::Immediate, Cycles::Constant(2));
    assert(decode(0x69) == Some(adc)) by {
        reveal(decode);
    }
    let r1 = Registers { PC: wrap(m.regs.PC + 1), ..m.regs };
    assert(peek_op(m.regs, m.mem) == Ok::<Op, CpuError>(adc));
    assert(execute(adc, r1, m.mem) == read_step(adc, r1, m.mem)) by {
        reveal(execute);
    }
    assert(operand(AddressMode::Immediate, r1, m.mem) == Ok::<Operand, CpuError>(
        Operand { addr: r1.PC, next: wrap(r1.PC + 1), crossed: false },
    )) by {
        reveal(operand);
    }
    lemma_step_of(m.regs, m.mem, adc);
}

/// CMP sets the carry exactly when the accumulator is at least the operand,
/// zero exactly when they are equal, and negative to bit 7 of their
/// difference modulo 256.
pub proof fn lemma_cmp_flags(m: Machine, b: Byte)
    requires
        holds(m.mem, m.regs.PC, 0xC9),
        holds(m.mem, wrap(m.regs.PC + 1), b),
    ensures
        step(m.regs, m.mem) matches Ok(c) && c.regs.C == (m.regs.A >= b) && c.regs.Z == (m.regs.A
            == b) && c.regs.N == ((m.regs.A - b) % 256 >= 128),
{
    let cmp = Op(OpCode::Cmp, AddressMode::Immediate, Cycles::Constant(2));
    assert(decode(0xC9) == Some(cmp)) by {
        reveal(decode);
    }
    let r1 = Registers { PC: wrap(m.regs.PC + 1), ..m.regs };
    assert(peek_op(m.regs, m.mem) == Ok::<Op, CpuError>(cmp));
    assert(execute(cmp, r1, m.mem) == read_step(cmp, r1, m.mem)) by {
        reveal(execute);
    }
    assert(operand(AddressMode::Immediate, r1, m.mem) == Ok::<Operand, CpuError>(
        Operand { addr: r1.PC, next: wrap(r1.PC + 1), crossed: false },
    )) by {
        reveal(operand);
    }
    lemma_step_of(m.regs, m.mem, cmp);
}

/// Resetting a second time changes nothing: the registers, the mode and
/// memory are those of a single reset.
pub proof fn lemma_reset_idempotent(m: Machine)
    ensures
        reset_spec(m) matches Ok(m1) ==> reset_spec(m1) == Ok::<Machine, CpuError>(m1),
{
}

} // verus!
