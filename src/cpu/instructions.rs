//! The instruction set: opcodes, addressing modes, base cycle counts, and
//! the table that decodes an opcode byte.
use vstd::prelude::*;

use crate::cpu::CpuError;
use crate::Byte;

verus! {

/// The 56 instructions of the 6502.
#[derive(Clone, Copy, Debug, PartialEq, Eq, Structural)]
pub enum OpCode {
    /// LDA: load the accumulator.
    Lda,
    /// LDX: load X.
    Ldx,
    /// LDY: load Y.
    Ldy,
    /// STA: store the accumulator.
    Sta,
    /// STX: store X.
    Stx,
    /// STY: store Y.
    Sty,
    /// TAX: copy the accumulator to X.
    Tax,
    /// TAY: copy the accumulator to Y.
    Tay,
    /// TXA: copy X to the accumulator.
    Txa,
    /// TYA: copy Y to the accumulator.
    Tya,
    /// TSX: copy the stack pointer to X.
    Tsx,
    /// TXS: copy X to the stack pointer.
    Txs,
    /// PHA: push the accumulator.
    Pha,
    /// PHP: push the status byte.
    Php,
    /// PLA: pull the accumulator.
    Pla,
    /// PLP: pull the status byte.
    Plp,
    /// AND: bitwise and into the accumulator.
    And,
    /// EOR: bitwise exclusive or into the accumulator.
    Eor,
    /// ORA: bitwise or into the accumulator.
    Ora,
    /// BIT: test bits of memory against the accumulator.
    Bit,
    /// ADC: add with carry.
    Adc,
    /// SBC: subtract with borrow.
    Sbc,
    /// CMP: compare with the accumulator.
    Cmp,
    /// CPX: compare with X.
    Cpx,
    /// CPY: compare with Y.
    Cpy,
    /// INC: increment memory.
    Inc,
    /// INX: increment X.
    Inx,
    /// INY: increment Y.
    Iny,
    /// DEC: decrement memory.
    Dec,
    /// DEX: decrement X.
    Dex,
    /// DEY: decrement Y.
    Dey,
    /// ASL: arithmetic shift left.
    Asl,
    /// LSR: logical shift right.
    Lsr,
    /// ROL: rotate left through the carry.
    Rol,
    /// ROR: rotate right through the carry.
    Ror,
    /// JMP: jump.
    Jmp,
    /// JSR: call a subroutine.
    Jsr,
    /// RTS: return from a subroutine.
    Rts,
    /// BCC: branch if the carry is clear.
    Bcc,
    /// BCS: branch if the carry is set.
    Bcs,
    /// BEQ: branch if zero is set.
    Beq,
    /// BMI: branch if negative is set.
    Bmi,
    /// BNE: branch if zero is clear.
    Bne,
    /// BPL: branch if negative is clear.
    Bpl,
    /// BVC: branch if overflow is clear.
    Bvc,
    /// BVS: branch if overflow is set.
    Bvs,
    /// CLC: clear the carry.
    Clc,
    /// CLD: clear decimal mode.
    Cld,
    /// CLI: clear interrupt disable.
    Cli,
    /// CLV: clear overflow.
    Clv,
    /// SEC: set the carry.
    Sec,
    /// SED: set decimal mode, which this core refuses.
    Sed,
    /// SEI: set interrupt disable.
    Sei,
    /// BRK: software interrupt through the IRQ vector.
    Brk,
    /// NOP: no operation.
    Nop,
    /// RTI: return from an interrupt.
    Rti,
}

/// How an instruction finds its operand.
#[derive(Clone, Copy, Debug, PartialEq, Eq, Structural)]
pub enum AddressMode {
    /// No operand.
    Implicit,
    /// The operand is the accumulator.
    Accumulator,
    /// The operand is the byte after the opcode.
    Immediate,
    /// A one-byte address on page zero.
    ZeroPage,
    /// A one-byte address plus X, wrapping within page zero.
    ZeroPageX,
    /// A one-byte address plus Y, wrapping within page zero.
    ZeroPageY,
    /// A signed one-byte offset from the next instruction; branches only.
    Relative,
    /// A two-byte address.
    Absolute,
    /// A two-byte address plus X.
    AbsoluteX,
    /// A two-byte address plus Y.
    AbsoluteY,
    /// The address stored at a two-byte address; JMP only.
    Indirect,
    /// `(d,X)`: the address stored on page zero at `d + X`.
    IndexedIndirect,
    /// `(d),Y`: the address stored on page zero at `d`, plus Y.
    IndirectIndexed,
}

/// The base cycle count of an instruction, and the penalty it can incur.
#[derive(Clone, Copy, Debug, PartialEq, Eq, Structural)]
pub enum Cycles {
    /// Always this many cycles.
    Constant(u8),
    /// One more when indexing crosses a page.
    Page(u8),
    /// One more when the branch is taken, two when it lands on another page.
    Branch(u8),
}

impl Cycles {
    /// The base count.
    pub open spec fn base(self) -> u8 {
        match self {
            Cycles::Constant(c) => c,
            Cycles::Page(c) => c,
            Cycles::Branch(c) => c,
        }
    }

    /// The base count.
    pub fn count(self) -> (r: u8)
        ensures
            r == self.base(),
    {
        match self {
            Cycles::Constant(c) => c,
            Cycles::Page(c) => c,
            Cycles::Branch(c) => c,
        }
    }
}

/// An instruction together with its addressing mode and cycle count.
#[derive(Clone, Copy, Debug, PartialEq, Eq, Structural)]
pub struct Op(pub OpCode, pub AddressMode, pub Cycles);

/// The opcode table of the documented 6502 instruction set; `None` for the
/// bytes it leaves unassigned.
#[verifier::opaque]
pub open spec fn decode(b: Byte) -> Option<Op> {
    match b {
        0xA9 => Some(Op(OpCode::Lda, AddressMode::Immediate, Cycles::Constant(2))),
        0xA5 => Some(Op(OpCode::Lda, AddressMode::ZeroPage, Cycles::Constant(3))),
        0xB5 => Some(Op(OpCode::Lda, AddressMode::ZeroPageX, Cycles::Constant(4))),
        0xAD => Some(Op(OpCode::Lda, AddressMode::Absolute, Cycles::Constant(4))),
        0xBD => Some(Op(OpCode::Lda, AddressMode::AbsoluteX, Cycles::Page(4))),
        0xB9 => Some(Op(OpCode::Lda, AddressMode::AbsoluteY, Cycles::Page(4))),
        0xA1 => Some(Op(OpCode::Lda, AddressMode::IndexedIndirect, Cycles::Constant(6))),
        0xB1 => Some(Op(OpCode::Lda, AddressMode::IndirectIndexed, Cycles::Page(5))),
        0xA2 => Some(Op(OpCode::Ldx, AddressMode::Immediate, Cycles::Constant(2))),
        0xA6 => Some(Op(OpCode::Ldx, AddressMode::ZeroPage, Cycles::Constant(3))),
        0xB6 => Some(Op(OpCode::Ldx, AddressMode::ZeroPageY, Cycles::Constant(4))),
        0xAE => Some(Op(OpCode::Ldx, AddressMode::Absolute, Cycles::Constant(4))),
        0xBE => Some(Op(OpCode::Ldx, AddressMode::AbsoluteY, Cycles::Page(4))),
        0xA0 => Some(Op(OpCode::Ldy, AddressMode::Immediate, Cycles::Constant(2))),
        0xA4 => Some(Op(OpCode::Ldy, AddressMode::ZeroPage, Cycles::Constant(3))),
        0xB4 => Some(Op(OpCode::Ldy, AddressMode::ZeroPageX, Cycles::Constant(4))),
        0xAC => Some(Op(OpCode::Ldy, AddressMode::Absolute, Cycles::Constant(4))),
        0xBC => Some(Op(OpCode::Ldy, AddressMode::AbsoluteX, Cycles::Page(4))),
        0x85 => Some(Op(OpCode::Sta, AddressMode::ZeroPage, Cycles::Constant(3))),
        0x95 => Some(Op(OpCode::Sta, AddressMode::ZeroPageX, Cycles::Constant(4))),
        0x8D => Some(Op(OpCode::Sta, AddressMode::Absolute, Cycles::Constant(4))),
        0x9D => Some(Op(OpCode::Sta, AddressMode::AbsoluteX, Cycles::Constant(5))),
        0x99 => Some(Op(OpCode::Sta, AddressMode::AbsoluteY, Cycles::Constant(5))),
        0x81 => Some(Op(OpCode::Sta, AddressMode::IndexedIndirect, Cycles::Constant(6))),
        0x91 => Some(Op(OpCode::Sta, AddressMode::IndirectIndexed, Cycles::Constant(6))),
        0x86 => Some(Op(OpCode::Stx, AddressMode::ZeroPage, Cycles::Constant(3))),
        0x96 => Some(Op(OpCode::Stx, AddressMode::ZeroPageY, Cycles::Constant(4))),
        0x8E => Some(Op(OpCode::Stx, AddressMode::Absolute, Cycles::Constant(4))),
        0x84 => Some(Op(OpCode::Sty, AddressMode::ZeroPage, Cycles::Constant(3))),
        0x94 => Some(Op(OpCode::Sty, AddressMode::ZeroPageX, Cycles::Constant(4))),
        0x8C => Some(Op(OpCode::Sty, AddressMode::Absolute, Cycles::Constant(4))),
        0xAA => Some(Op(OpCode::Tax, AddressMode::Implicit, Cycles::Constant(2))),
        0xA8 => Some(Op(OpCode::Tay, AddressMode::Implicit, Cycles::Constant(2))),
        0x8A => Some(Op(OpCode::Txa, AddressMode::Implicit, Cycles::Constant(2))),
        0x98 => Some(Op(OpCode::Tya, AddressMode::Implicit, Cycles::Constant(2))),
        0xBA => Some(Op(OpCode::Tsx, AddressMode::Implicit, Cycles::Constant(2))),
        0x9A => Some(Op(OpCode::Txs, AddressMode::Implicit, Cycles::Constant(2))),
        0x48 => Some(Op(OpCode::Pha, AddressMode::Implicit, Cycles::Constant(3))),
        0x08 => Some(Op(OpCode::Php, AddressMode::Implicit, Cycles::Constant(3))),
        0x68 => Some(Op(OpCode::Pla, AddressMode::Implicit, Cycles::Constant(4))),
        0x28 => Some(Op(OpCode::Plp, AddressMode::Implicit, Cycles::Constant(4))),
        0x29 => Some(Op(OpCode::And, AddressMode::Immediate, Cycles::Constant(2))),
        0x25 => Some(Op(OpCode::And, AddressMode::ZeroPage, Cycles::Constant(3))),
        0x35 => Some(Op(OpCode::And, AddressMode::ZeroPageX, Cycles::Constant(4))),
        0x2D => Some(Op(OpCode::And, AddressMode::Absolute, Cycles::Constant(4))),
        0x3D => Some(Op(OpCode::And, AddressMode::AbsoluteX, Cycles::Page(4))),
        0x39 => Some(Op(OpCode::And, AddressMode::AbsoluteY, Cycles::Page(4))),
        0x21 => Some(Op(OpCode::And, AddressMode::IndexedIndirect, Cycles::Constant(6))),
        0x31 => Some(Op(OpCode::And, AddressMode::IndirectIndexed, Cycles::Page(5))),
        0x49 => Some(Op(OpCode::Eor, AddressMode::Immediate, Cycles::Constant(2))),
        0x45 => Some(Op(OpCode::Eor, AddressMode::ZeroPage, Cycles::Constant(3))),
        0x55 => Some(Op(OpCode::Eor, AddressMode::ZeroPageX, Cycles::Constant(4))),
        0x4D => Some(Op(OpCode::Eor, AddressMode::Absolute, Cycles::Constant(4))),
        0x5D => Some(Op(OpCode::Eor, AddressMode::AbsoluteX, Cycles::Page(4))),
        0x59 => Some(Op(OpCode::Eor, AddressMode::AbsoluteY, Cycles::Page(4))),
        0x41 => Some(Op(OpCode::Eor, AddressMode::IndexedIndirect, Cycles::Constant(6))),
        0x51 => Some(Op(OpCode::Eor, AddressMode::IndirectIndexed, Cycles::Page(5))),
        0x09 => Some(Op(OpCode::Ora, AddressMode::Immediate, Cycles::Constant(2))),
        0x05 => Some(Op(OpCode::Ora, AddressMode::ZeroPage, Cycles::Constant(3))),
        0x15 => Some(Op(OpCode::Ora, AddressMode::ZeroPageX, Cycles::Constant(4))),
        0x0D => Some(Op(OpCode::Ora, AddressMode::Absolute, Cycles::Constant(4))),
        0x1D => Some(Op(OpCode::Ora, AddressMode::AbsoluteX, Cycles::Page(4))),
        0x19 => Some(Op(OpCode::Ora, AddressMode::AbsoluteY, Cycles::Page(4))),
        0x01 => Some(Op(OpCode::Ora, AddressMode::IndexedIndirect, Cycles::Constant(6))),
        0x11 => Some(Op(OpCode::Ora, AddressMode::IndirectIndexed, Cycles::Page(5))),
        0x24 => Some(Op(OpCode::Bit, AddressMode::ZeroPage, Cycles::Constant(3))),
        0x2C => Some(Op(OpCode::Bit, AddressMode::Absolute, Cycles::Constant(4))),
        0x69 => Some(Op(OpCode::Adc, AddressMode::Immediate, Cycles::Constant(2))),
        0x65 => Some(Op(OpCode::Adc, AddressMode::ZeroPage, Cycles::Constant(3))),
        0x75 => Some(Op(OpCode::Adc, AddressMode::ZeroPageX, Cycles::Constant(4))),
        0x6D => Some(Op(OpCode::Adc, AddressMode::Absolute, Cycles::Constant(4))),
        0x7D => Some(Op(OpCode::Adc, AddressMode::AbsoluteX, Cycles::Page(4))),
        0x79 => Some(Op(OpCode::Adc, AddressMode::AbsoluteY, Cycles::Page(4))),
        0x61 => Some(Op(OpCode::Adc, AddressMode::IndexedIndirect, Cycles::Constant(6))),
        0x71 => Some(Op(OpCode::Adc, AddressMode::IndirectIndexed, Cycles::Page(5))),
        0xE9 => Some(Op(OpCode::Sbc, AddressMode::Immediate, Cycles::Constant(2))),
        0xE5 => Some(Op(OpCode::Sbc, AddressMode::ZeroPage, Cycles::Constant(3))),
        0xF5 => Some(Op(OpCode::Sbc, AddressMode::ZeroPageX, Cycles::Constant(4))),
        0xED => Some(Op(OpCode::Sbc, AddressMode::Absolute, Cycles::Constant(4))),
        0xFD => Some(Op(OpCode::Sbc, AddressMode::AbsoluteX, Cycles::Page(4))),
        0xF9 => Some(Op(OpCode::Sbc, AddressMode::AbsoluteY, Cycles::Page(4))),
        0xE1 => Some(Op(OpCode::Sbc, AddressMode::IndexedIndirect, Cycles::Constant(6))),
        0xF1 => Some(Op(OpCode::Sbc, AddressMode::IndirectIndexed, Cycles::Page(5))),
        0xC9 => Some(Op(OpCode::Cmp, AddressMode::Immediate, Cycles::Constant(2))),
        0xC5 => Some(Op(OpCode::Cmp, AddressMode::ZeroPage, Cycles::Constant(3))),
        0xD5 => Some(Op(OpCode::Cmp, AddressMode::ZeroPageX, Cycles::Constant(4))),
        0xCD => Some(Op(OpCode::Cmp, AddressMode::Absolute, Cycles::Constant(4))),
        0xDD => Some(Op(OpCode::Cmp, AddressMode::AbsoluteX, Cycles::Page(4))),
        0xD9 => Some(Op(OpCode::Cmp, AddressMode::AbsoluteY, Cycles::Page(4))),
        0xC1 => Some(Op(OpCode::Cmp, AddressMode::IndexedIndirect, Cycles::Constant(6))),
        0xD1 => Some(Op(OpCode::Cmp, AddressMode::IndirectIndexed, Cycles::Page(5))),
        0xE0 => Some(Op(OpCode::Cpx, AddressMode::Immediate, Cycles::Constant(2))),
        0xE4 => Some(Op(OpCode::Cpx, AddressMode::ZeroPage, Cycles::Constant(3))),
        0xEC => Some(Op(OpCode::Cpx, AddressMode::Absolute, Cycles::Constant(4))),
        0xC0 => Some(Op(OpCode::Cpy, AddressMode::Immediate, Cycles::Constant(2))),
        0xC4 => Some(Op(OpCode::Cpy, AddressMode::ZeroPage, Cycles::Constant(3))),
        0xCC => Some(Op(OpCode::Cpy, AddressMode::Absolute, Cycles::Constant(4))),
        0xE6 => Some(Op(OpCode::Inc, AddressMode::ZeroPage, Cycles::Constant(5))),
        0xF6 => Some(Op(OpCode::Inc, AddressMode::ZeroPageX, Cycles::Constant(6))),
        0xEE => Some(Op(OpCode::Inc, AddressMode::Absolute, Cycles::Constant(6))),
        0xFE => Some(Op(OpCode::Inc, AddressMode::AbsoluteX, Cycles::Constant(7))),
        0xE8 => Some(Op(OpCode::Inx, AddressMode::Implicit, Cycles::Constant(2))),
        0xC8 => Some(Op(OpCode::Iny, AddressMode::Implicit, Cycles::Constant(2))),
        0xC6 => Some(Op(OpCode::Dec, AddressMode::ZeroPage, Cycles::Constant(5))),
        0xD6 => Some(Op(OpCode::Dec, AddressMode::ZeroPageX, Cycles::Constant(6))),
        0xCE => Some(Op(OpCode::Dec, AddressMode::Absolute, Cycles::Constant(6))),
        0xDE => Some(Op(OpCode::Dec, AddressMode::AbsoluteX, Cycles::Constant(7))),
        0xCA => Some(Op(OpCode::Dex, AddressMode::Implicit, Cycles::Constant(2))),
        0x88 => Some(Op(OpCode::Dey, AddressMode::Implicit, Cycles::Constant(2))),
        0x0A => Some(Op(OpCode::Asl, AddressMode::Accumulator, Cycles::Constant(2))),
        0x06 => Some(Op(OpCode::Asl, AddressMode::ZeroPage, Cycles::Constant(5))),
        0x16 => Some(Op(OpCode::Asl, AddressMode::ZeroPageX, Cycles::Constant(6))),
        0x0E => Some(Op(OpCode::Asl, AddressMode::Absolute, Cycles::Constant(6))),
        0x1E => Some(Op(OpCode::Asl, AddressMode::AbsoluteX, Cycles::Constant(7))),
        0x4A => Some(Op(OpCode::Lsr, AddressMode::Accumulator, Cycles::Constant(2))),
        0x46 => Some(Op(OpCode::Lsr, AddressMode::ZeroPage, Cycles::Constant(5))),
        0x56 => Some(Op(OpCode::Lsr, AddressMode::ZeroPageX, Cycles::Constant(6))),
        0x4E => Some(Op(OpCode::Lsr, AddressMode::Absolute, Cycles::Constant(6))),
        0x5E => Some(Op(OpCode::Lsr, AddressMode::AbsoluteX, Cycles::Constant(7))),
        0x2A => Some(Op(OpCode::Rol, AddressMode::Accumulator, Cycles::Constant(2))),
        0x26 => Some(Op(OpCode::Rol, AddressMode::ZeroPage, Cycles::Constant(5))),
        0x36 => Some(Op(OpCode::Rol, AddressMode::ZeroPageX, Cycles::Constant(6))),
        0x2E => Some(Op(OpCode::Rol, AddressMode::Absolute, Cycles::Constant(6))),
        0x3E => Some(Op(OpCode::Rol, AddressMode::AbsoluteX, Cycles::Constant(7))),
        0x6A => Some(Op(OpCode::Ror, AddressMode::Accumulator, Cycles::Constant(2))),
        0x66 => Some(Op(OpCode::Ror, AddressMode::ZeroPage, Cycles::Constant(5))),
        0x76 => Some(Op(OpCode::Ror, AddressMode::ZeroPageX, Cycles::Constant(6))),
        0x6E => Some(Op(OpCode::Ror, AddressMode::Absolute, Cycles::Constant(6))),
        0x7E => Some(Op(OpCode::Ror, AddressMode::AbsoluteX, Cycles::Constant(7))),
        0x4C => Some(Op(OpCode::Jmp, AddressMode::Absolute, Cycles::Constant(3))),
        0x6C => Some(Op(OpCode::Jmp, AddressMode::Indirect, Cycles::Constant(5))),
        0x20 => Some(Op(OpCode::Jsr, AddressMode::Absolute, Cycles::Constant(6))),
        0x60 => Some(Op(OpCode::Rts, AddressMode::Implicit, Cycles::Constant(6))),
        0x90 => Some(Op(OpCode::Bcc, AddressMode::Relative, Cycles::Branch(2))),
        0xB0 => Some(Op(OpCode::Bcs, AddressMode::Relative, Cycles::Branch(2))),
        0xF0 => Some(Op(OpCode::Beq, AddressMode::Relative, Cycles::Branch(2))),
        0x30 => Some(Op(OpCode::Bmi, AddressMode::Relative, Cycles::Branch(2))),
        0xD0 => Some(Op(OpCode::Bne, AddressMode::Relative, Cycles::Branch(2))),
        0x10 => Some(Op(OpCode::Bpl, AddressMode::Relative, Cycles::Branch(2))),
        0x50 => Some(Op(OpCode::Bvc, AddressMode::Relative, Cycles::Branch(2))),
        0x70 => Some(Op(OpCode::Bvs, AddressMode::Relative, Cycles::Branch(2))),
        0x18 => Some(Op(OpCode::Clc, AddressMode::Implicit, Cycles::Constant(2))),
        0xD8 => Some(Op(OpCode::Cld, AddressMode::Implicit, Cycles::Constant(2))),
        0x58 => Some(Op(OpCode::Cli, AddressMode::Implicit, Cycles::Constant(2))),
        0xB8 => Some(Op(OpCode::Clv, AddressMode::Implicit, Cycles::Constant(2))),
        0x38 => Some(Op(OpCode::Sec, AddressMode::Implicit, Cycles::Constant(2))),
        0xF8 => Some(Op(OpCode::Sed, AddressMode::Implicit, Cycles::Constant(2))),
        0x78 => Some(Op(OpCode::Sei, AddressMode::Implicit, Cycles::Constant(2))),
        0x00 => Some(Op(OpCode::Brk, AddressMode::Implicit, Cycles::Constant(7))),
        0xEA => Some(Op(OpCode::Nop, AddressMode::Implicit, Cycles::Constant(2))),
        0x40 => Some(Op(OpCode::Rti, AddressMode::Implicit, Cycles::Constant(6))),
        _ => None,
        }
}

impl Op {
    /// Decodes an opcode byte.
    pub fn decode(value: Byte) -> (r: Option<Op>)
        ensures
            r == decode(value),
    {
        reveal(decode);
        Some(
            match value {
                0xA9 => Op(OpCode::Lda, AddressMode::Immediate, Cycles::Constant(2)),
                0xA5 => Op(OpCode::Lda, AddressMode::ZeroPage, Cycles::Constant(3)),
                0xB5 => Op(OpCode::Lda, AddressMode::ZeroPageX, Cycles::Constant(4)),
                0xAD => Op(OpCode::Lda, AddressMode::Absolute, Cycles::Constant(4)),
                0xBD => Op(OpCode::Lda, AddressMode::AbsoluteX, Cycles::Page(4)),
                0xB9 => Op(OpCode::Lda, AddressMode::AbsoluteY, Cycles::Page(4)),
                0xA1 => Op(OpCode::Lda, AddressMode::IndexedIndirect, Cycles::Constant(6)),
                0xB1 => Op(OpCode::Lda, AddressMode::IndirectIndexed, Cycles::Page(5)),
                0xA2 => Op(OpCode::Ldx, AddressMode::Immediate, Cycles::Constant(2)),
                0xA6 => Op(OpCode::Ldx, AddressMode::ZeroPage, Cycles::Constant(3)),
                0xB6 => Op(OpCode::Ldx, AddressMode::ZeroPageY, Cycles::Constant(4)),
                0xAE => Op(OpCode::Ldx, AddressMode::Absolute, Cycles::Constant(4)),
                0xBE => Op(OpCode::Ldx, AddressMode::AbsoluteY, Cycles::Page(4)),
                0xA0 => Op(OpCode::Ldy, AddressMode::Immediate, Cycles::Constant(2)),
                0xA4 => Op(OpCode::Ldy, AddressMode::ZeroPage, Cycles::Constant(3)),
                0xB4 => Op(OpCode::Ldy, AddressMode::ZeroPageX, Cycles::Constant(4)),
                0xAC => Op(OpCode::Ldy, AddressMode::Absolute, Cycles::Constant(4)),
                0xBC => Op(OpCode::Ldy, AddressMode::AbsoluteX, Cycles::Page(4)),
                0x85 => Op(OpCode::Sta, AddressMode::ZeroPage, Cycles::Constant(3)),
                0x95 => Op(OpCode::Sta, AddressMode::ZeroPageX, Cycles::Constant(4)),
                0x8D => Op(OpCode::Sta, AddressMode::Absolute, Cycles::Constant(4)),
                0x9D => Op(OpCode::Sta, AddressMode::AbsoluteX, Cycles::Constant(5)),
                0x99 => Op(OpCode::Sta, AddressMode::AbsoluteY, Cycles::Constant(5)),
                0x81 => Op(OpCode::Sta, AddressMode::IndexedIndirect, Cycles::Constant(6)),
                0x91 => Op(OpCode::Sta, AddressMode::IndirectIndexed, Cycles::Constant(6)),
                0x86 => Op(OpCode::Stx, AddressMode::ZeroPage, Cycles::Constant(3)),
                0x96 => Op(OpCode::Stx, AddressMode::ZeroPageY, Cycles::Constant(4)),
                0x8E => Op(OpCode::Stx, AddressMode::Absolute, Cycles::Constant(4)),
                0x84 => Op(OpCode::Sty, AddressMode::ZeroPage, Cycles::Constant(3)),
                0x94 => Op(OpCode::Sty, AddressMode::ZeroPageX, Cycles::Constant(4)),
                0x8C => Op(OpCode::Sty, AddressMode::Absolute, Cycles::Constant(4)),
                0xAA => Op(OpCode::Tax, AddressMode::Implicit, Cycles::Constant(2)),
                0xA8 => Op(OpCode::Tay, AddressMode::Implicit, Cycles::Constant(2)),
                0x8A => Op(OpCode::Txa, AddressMode::Implicit, Cycles::Constant(2)),
                0x98 => Op(OpCode::Tya, AddressMode::Implicit, Cycles::Constant(2)),
                0xBA => Op(OpCode::Tsx, AddressMode::Implicit, Cycles::Constant(2)),
                0x9A => Op(OpCode::Txs, AddressMode::Implicit, Cycles::Constant(2)),
                0x48 => Op(OpCode::Pha, AddressMode::Implicit, Cycles::Constant(3)),
                0x08 => Op(OpCode::Php, AddressMode::Implicit, Cycles::Constant(3)),
                0x68 => Op(OpCode::Pla, AddressMode::Implicit, Cycles::Constant(4)),
                0x28 => Op(OpCode::Plp, AddressMode::Implicit, Cycles::Constant(4)),
                0x29 => Op(OpCode::And, AddressMode::Immediate, Cycles::Constant(2)),
                0x25 => Op(OpCode::And, AddressMode::ZeroPage, Cycles::Constant(3)),
                0x35 => Op(OpCode::And, AddressMode::ZeroPageX, Cycles::Constant(4)),
                0x2D => Op(OpCode::And, AddressMode::Absolute, Cycles::Constant(4)),
                0x3D => Op(OpCode::And, AddressMode::AbsoluteX, Cycles::Page(4)),
                0x39 => Op(OpCode::And, AddressMode::AbsoluteY, Cycles::Page(4)),
                0x21 => Op(OpCode::And, AddressMode::IndexedIndirect, Cycles::Constant(6)),
                0x31 => Op(OpCode::And, AddressMode::IndirectIndexed, Cycles::Page(5)),
                0x49 => Op(OpCode::Eor, AddressMode::Immediate, Cycles::Constant(2)),
                0x45 => Op(OpCode::Eor, AddressMode::ZeroPage, Cycles::Constant(3)),
                0x55 => Op(OpCode::Eor, AddressMode::ZeroPageX, Cycles::Constant(4)),
                0x4D => Op(OpCode::Eor, AddressMode::Absolute, Cycles::Constant(4)),
                0x5D => Op(OpCode::Eor, AddressMode::AbsoluteX, Cycles::Page(4)),
                0x59 => Op(OpCode::Eor, AddressMode::AbsoluteY, Cycles::Page(4)),
                0x41 => Op(OpCode::Eor, AddressMode::IndexedIndirect, Cycles::Constant(6)),
                0x51 => Op(OpCode::Eor, AddressMode::IndirectIndexed, Cycles::Page(5)),
                0x09 => Op(OpCode::Ora, AddressMode::Immediate, Cycles::Constant(2)),
                0x05 => Op(OpCode::Ora, AddressMode::ZeroPage, Cycles::Constant(3)),
                0x15 => Op(OpCode::Ora, AddressMode::ZeroPageX, Cycles::Constant(4)),
                0x0D => Op(OpCode::Ora, AddressMode::Absolute, Cycles::Constant(4)),
                0x1D => Op(OpCode::Ora, AddressMode::AbsoluteX, Cycles::Page(4)),
                0x19 => Op(OpCode::Ora, AddressMode::AbsoluteY, Cycles::Page(4)),
                0x01 => Op(OpCode::Ora, AddressMode::IndexedIndirect, Cycles::Constant(6)),
                0x11 => Op(OpCode::Ora, AddressMode::IndirectIndexed, Cycles::Page(5)),
                0x24 => Op(OpCode::Bit, AddressMode::ZeroPage, Cycles::Constant(3)),
                0x2C => Op(OpCode::Bit, AddressMode::Absolute, Cycles::Constant(4)),
                0x69 => Op(OpCode::Adc, AddressMode::Immediate, Cycles::Constant(2)),
                0x65 => Op(OpCode::Adc, AddressMode::ZeroPage, Cycles::Constant(3)),
                0x75 => Op(OpCode::Adc, AddressMode::ZeroPageX, Cycles::Constant(4)),
                0x6D => Op(OpCode::Adc, AddressMode::Absolute, Cycles::Constant(4)),
                0x7D => Op(OpCode::Adc, AddressMode::AbsoluteX, Cycles::Page(4)),
                0x79 => Op(OpCode::Adc, AddressMode::AbsoluteY, Cycles::Page(4)),
                0x61 => Op(OpCode::Adc, AddressMode::IndexedIndirect, Cycles::Constant(6)),
                0x71 => Op(OpCode::Adc, AddressMode::IndirectIndexed, Cycles::Page(5)),
                0xE9 => Op(OpCode::Sbc, AddressMode::Immediate, Cycles::Constant(2)),
                0xE5 => Op(OpCode::Sbc, AddressMode::ZeroPage, Cycles::Constant(3)),
                0xF5 => Op(OpCode::Sbc, AddressMode::ZeroPageX, Cycles::Constant(4)),
                0xED => Op(OpCode::Sbc, AddressMode::Absolute, Cycles::Constant(4)),
                0xFD => Op(OpCode::Sbc, AddressMode::AbsoluteX, Cycles::Page(4)),
                0xF9 => Op(OpCode::Sbc, AddressMode::AbsoluteY, Cycles::Page(4)),
                0xE1 => Op(OpCode::Sbc, AddressMode::IndexedIndirect, Cycles::Constant(6)),
                0xF1 => Op(OpCode::Sbc, AddressMode::IndirectIndexed, Cycles::Page(5)),
                0xC9 => Op(OpCode::Cmp, AddressMode::Immediate, Cycles::Constant(2)),
                0xC5 => Op(OpCode::Cmp, AddressMode::ZeroPage, Cycles::Constant(3)),
                0xD5 => Op(OpCode::Cmp, AddressMode::ZeroPageX, Cycles::Constant(4)),
                0xCD => Op(OpCode::Cmp, AddressMode::Absolute, Cycles::Constant(4)),
                0xDD => Op(OpCode::Cmp, AddressMode::AbsoluteX, Cycles::Page(4)),
                0xD9 => Op(OpCode::Cmp, AddressMode::AbsoluteY, Cycles::Page(4)),
                0xC1 => Op(OpCode::Cmp, AddressMode::IndexedIndirect, Cycles::Constant(6)),
                0xD1 => Op(OpCode::Cmp, AddressMode::IndirectIndexed, Cycles::Page(5)),
                0xE0 => Op(OpCode::Cpx, AddressMode::Immediate, Cycles::Constant(2)),
                0xE4 => Op(OpCode::Cpx, AddressMode::ZeroPage, Cycles::Constant(3)),
                0xEC => Op(OpCode::Cpx, AddressMode::Absolute, Cycles::Constant(4)),
                0xC0 => Op(OpCode::Cpy, AddressMode::Immediate, Cycles::Constant(2)),
                0xC4 => Op(OpCode::Cpy, AddressMode::ZeroPage, Cycles::Constant(3)),
                0xCC => Op(OpCode::Cpy, AddressMode::Absolute, Cycles::Constant(4)),
                0xE6 => Op(OpCode::Inc, AddressMode::ZeroPage, Cycles::Constant(5)),
                0xF6 => Op(OpCode::Inc, AddressMode::ZeroPageX, Cycles::Constant(6)),
                0xEE => Op(OpCode::Inc, AddressMode::Absolute, Cycles::Constant(6)),
                0xFE => Op(OpCode::Inc, AddressMode::AbsoluteX, Cycles::Constant(7)),
                0xE8 => Op(OpCode::Inx, AddressMode::Implicit, Cycles::Constant(2)),
                0xC8 => Op(OpCode::Iny, AddressMode::Implicit, Cycles::Constant(2)),
                0xC6 => Op(OpCode::Dec, AddressMode::ZeroPage, Cycles::Constant(5)),
                0xD6 => Op(OpCode::Dec, AddressMode::ZeroPageX, Cycles::Constant(6)),
                0xCE => Op(OpCode::Dec, AddressMode::Absolute, Cycles::Constant(6)),
                0xDE => Op(OpCode::Dec, AddressMode::AbsoluteX, Cycles::Constant(7)),
                0xCA => Op(OpCode::Dex, AddressMode::Implicit, Cycles::Constant(2)),
                0x88 => Op(OpCode::Dey, AddressMode::Implicit, Cycles::Constant(2)),
                0x0A => Op(OpCode::Asl, AddressMode::Accumulator, Cycles::Constant(2)),
                0x06 => Op(OpCode::Asl, AddressMode::ZeroPage, Cycles::Constant(5)),
                0x16 => Op(OpCode::Asl, AddressMode::ZeroPageX, Cycles::Constant(6)),
                0x0E => Op(OpCode::Asl, AddressMode::Absolute, Cycles::Constant(6)),
                0x1E => Op(OpCode::Asl, AddressMode::AbsoluteX, Cycles::Constant(7)),
                0x4A => Op(OpCode::Lsr, AddressMode::Accumulator, Cycles::Constant(2)),
                0x46 => Op(OpCode::Lsr, AddressMode::ZeroPage, Cycles::Constant(5)),
                0x56 => Op(OpCode::Lsr, AddressMode::ZeroPageX, Cycles::Constant(6)),
                0x4E => Op(OpCode::Lsr, AddressMode::Absolute, Cycles::Constant(6)),
                0x5E => Op(OpCode::Lsr, AddressMode::AbsoluteX, Cycles::Constant(7)),
                0x2A => Op(OpCode::Rol, AddressMode::Accumulator, Cycles::Constant(2)),
                0x26 => Op(OpCode::Rol, AddressMode::ZeroPage, Cycles::Constant(5)),
                0x36 => Op(OpCode::Rol, AddressMode::ZeroPageX, Cycles::Constant(6)),
                0x2E => Op(OpCode::Rol, AddressMode::Absolute, Cycles::Constant(6)),
                0x3E => Op(OpCode::Rol, AddressMode::AbsoluteX, Cycles::Constant(7)),
                0x6A => Op(OpCode::Ror, AddressMode::Accumulator, Cycles::Constant(2)),
                0x66 => Op(OpCode::Ror, AddressMode::ZeroPage, Cycles::Constant(5)),
                0x76 => Op(OpCode::Ror, AddressMode::ZeroPageX, Cycles::Constant(6)),
                0x6E => Op(OpCode::Ror, AddressMode::Absolute, Cycles::Constant(6)),
                0x7E => Op(OpCode::Ror, AddressMode::AbsoluteX, Cycles::Constant(7)),
                0x4C => Op(OpCode::Jmp, AddressMode::Absolute, Cycles::Constant(3)),
                0x6C => Op(OpCode::Jmp, AddressMode::Indirect, Cycles::Constant(5)),
                0x20 => Op(OpCode::Jsr, AddressMode::Absolute, Cycles::Constant(6)),
                0x60 => Op(OpCode::Rts, AddressMode::Implicit, Cycles::Constant(6)),
                0x90 => Op(OpCode::Bcc, AddressMode::Relative, Cycles::Branch(2)),
                0xB0 => Op(OpCode::Bcs, AddressMode::Relative, Cycles::Branch(2)),
                0xF0 => Op(OpCode::Beq, AddressMode::Relative, Cycles::Branch(2)),
                0x30 => Op(OpCode::Bmi, AddressMode::Relative, Cycles::Branch(2)),
                0xD0 => Op(OpCode::Bne, AddressMode::Relative, Cycles::Branch(2)),
                0x10 => Op(OpCode::Bpl, AddressMode::Relative, Cycles::Branch(2)),
                0x50 => Op(OpCode::Bvc, AddressMode::Relative, Cycles::Branch(2)),
                0x70 => Op(OpCode::Bvs, AddressMode::Relative, Cycles::Branch(2)),
                0x18 => Op(OpCode::Clc, AddressMode::Implicit, Cycles::Constant(2)),
                0xD8 => Op(OpCode::Cld, AddressMode::Implicit, Cycles::Constant(2)),
                0x58 => Op(OpCode::Cli, AddressMode::Implicit, Cycles::Constant(2)),
                0xB8 => Op(OpCode::Clv, AddressMode::Implicit, Cycles::Constant(2)),
                0x38 => Op(OpCode::Sec, AddressMode::Implicit, Cycles::Constant(2)),
                0xF8 => Op(OpCode::Sed, AddressMode::Implicit, Cycles::Constant(2)),
                0x78 => Op(OpCode::Sei, AddressMode::Implicit, Cycles::Constant(2)),
                0x00 => Op(OpCode::Brk, AddressMode::Implicit, Cycles::Constant(7)),
                0xEA => Op(OpCode::Nop, AddressMode::Implicit, Cycles::Constant(2)),
                0x40 => Op(OpCode::Rti, AddressMode::Implicit, Cycles::Constant(6)),
                _ => {
                    return None;
                }
            },
        )
    }
}

impl TryFrom<Byte> for Op {
    type Error = CpuError;

    fn try_from(value: Byte) -> (r: Result<Op, CpuError>) {
        match Op::decode(value) {
            Some(op) => Ok(op),
            None => Err(CpuError::BadOpCode(value)),
        }
    }
}

impl vstd::std_specs::convert::TryFromSpecImpl<Byte> for Op {
    open spec fn obeys_try_from_spec() -> bool {
        true
    }

    open spec fn try_from_spec(v: Byte) -> Result<Op, CpuError> {
        match decode(v) {
            Some(op) => Ok(op),
            None => Err(CpuError::BadOpCode(v)),
        }
    }
}

} // verus!
