//! The arithmetic and logic of the 6502 on single bytes, with the flags each
//! operation produces.
use vstd::prelude::*;

use crate::Byte;

verus! {

/// A byte read as a two's-complement number.
pub open spec fn signed(b: Byte) -> int {
    if b < 128 { b as int } else { b as int - 256 }
}

/// Whether bit 7 of a byte is set.
pub open spec fn negative(b: Byte) -> bool {
    b >= 128
}

/// 1 for a set flag, 0 for a clear one.
pub open spec fn bit(f: bool) -> int {
    if f { 1 } else { 0 }
}

/// A result byte with the carry and signed-overflow flags of the operation
/// that produced it.
#[derive(Clone, Copy, Debug, PartialEq, Eq, Structural)]
pub struct Sum {
    pub value: Byte,
    pub carry: bool,
    pub overflow: bool,
}

/// `a + m + c`: the low eight bits, the carry out of bit 7, and whether the
/// signed sum leaves -128..=127.
pub open spec fn add_spec(a: Byte, m: Byte, c: bool) -> Sum {
    let s = a as int + m as int + bit(c);
    let t = signed(a) + signed(m) + bit(c);
    Sum { value: (s % 256) as Byte, carry: s > 255, overflow: !(-128 <= t <= 127) }
}

/// `a - m - (1 - c)`: the low eight bits, the carry (no borrow), and whether
/// the signed difference leaves -128..=127.
pub open spec fn sub_spec(a: Byte, m: Byte, c: bool) -> Sum {
    let d = a as int - m as int - (1 - bit(c));
    let t = signed(a) - signed(m) - (1 - bit(c));
    Sum { value: (d % 256) as Byte, carry: d >= 0, overflow: !(-128 <= t <= 127) }
}

/// The carry, zero and negative flags of comparing a register `r` with `m`.
pub open spec fn compare_spec(r: Byte, m: Byte) -> (bool, bool, bool) {
    (r >= m, r == m, negative(((r as int - m as int) % 256) as Byte))
}

/// A shifted or rotated byte, and the bit that left it (the new carry).
pub open spec fn shift_left_spec(v: Byte, carry_in: bool) -> (Byte, bool) {
    (((v as int * 2 + bit(carry_in)) % 256) as Byte, v >= 128)
}

/// A byte shifted or rotated one place right, and the bit that left it.
pub open spec fn shift_right_spec(v: Byte, carry_in: bool) -> (Byte, bool) {
    ((v as int / 2 + 128 * bit(carry_in)) as Byte, v % 2 == 1)
}

/// Binary addition with carry (ADC).
pub fn add_with_carry(a: Byte, m: Byte, c: bool) -> (r: Sum)
    ensures
        r == add_spec(a, m, c),
{
    let cin: u16 = if c { 1 } else { 0 };
    let s: u16 = a as u16 + m as u16 + cin;
    let value = (s % 256) as u8;
    let overflow = (!(a ^ m) & (a ^ value) & 0x80u8) != 0;
    proof {
        lemma_add_overflow(a, m, c, value);
    }
    Sum { value, carry: s > 255, overflow }
}

/// Binary subtraction with borrow (SBC).
pub fn subtract_with_borrow(a: Byte, m: Byte, c: bool) -> (r: Sum)
    ensures
        r == sub_spec(a, m, c),
{
    let borrow: u16 = if c { 0 } else { 1 };
    let carry = a as u16 >= m as u16 + borrow;
    let value = (((a as u16 + 256) - m as u16 - borrow) % 256) as u8;
    let overflow = ((a ^ m) & (a ^ value) & 0x80u8) != 0;
    proof {
        lemma_sub_overflow(a, m, c, value);
    }
    Sum { value, carry, overflow }
}

/// The flags of CMP, CPX and CPY: carry, zero, negative.
pub fn compare(r: Byte, m: Byte) -> (f: (bool, bool, bool))
    ensures
        f == compare_spec(r, m),
{
    let d = r.wrapping_sub(m);
    (r >= m, r == m, d >= 128)
}

/// ASL (`carry_in` false) and ROL (`carry_in` the old carry).
pub fn shift_left(v: Byte, carry_in: bool) -> (r: (Byte, bool))
    ensures
        r == shift_left_spec(v, carry_in),
{
    let low: u8 = if carry_in { 1 } else { 0 };
    let shifted = ((v as u16 * 2 + low as u16) % 256) as u8;
    (shifted, v >= 128)
}

/// LSR (`carry_in` false) and ROR (`carry_in` the old carry).
pub fn shift_right(v: Byte, carry_in: bool) -> (r: (Byte, bool))
    ensures
        r == shift_right_spec(v, carry_in),
{
    let high: u8 = if carry_in { 128 } else { 0 };
    (v / 2 + high, v % 2 == 1)
}

/// The bitwise overflow rule of ADC agrees with signed overflow.
proof fn lemma_add_overflow(a: Byte, m: Byte, c: bool, value: Byte)
    requires
        value == add_spec(a, m, c).value,
    ensures
        ((!(a ^ m) & (a ^ value) & 0x80u8) != 0) == add_spec(a, m, c).overflow,
{
    assert(((!(a ^ m) & (a ^ value) & 0x80u8) != 0) == ((a >= 128) == (m >= 128) && (value
        >= 128) != (a >= 128))) by (bit_vector);
}

/// The bitwise overflow rule of SBC agrees with signed overflow.
proof fn lemma_sub_overflow(a: Byte, m: Byte, c: bool, value: Byte)
    requires
        value == sub_spec(a, m, c).value,
    ensures
        (((a ^ m) & (a ^ value) & 0x80u8) != 0) == sub_spec(a, m, c).overflow,
{
    assert((((a ^ m) & (a ^ value) & 0x80u8) != 0) == ((a >= 128) != (m >= 128) && (value
        >= 128) != (a >= 128))) by (bit_vector);
}

/// ADC with the carry clear: the carry is that of the 8-bit sum, the result
/// is its low eight bits, zero exactly when those are, and negative exactly
/// when bit 7 of them is set.
pub proof fn lemma_add_without_carry(a: Byte, b: Byte)
    ensures
        add_spec(a, b, false).carry == (a as int + b as int > 255),
        add_spec(a, b, false).value == (a as int + b as int) % 256,
        (add_spec(a, b, false).value == 0) == ((a as int + b as int) % 256 == 0),
        negative(add_spec(a, b, false).value) == ((a as int + b as int) % 256 >= 128),
{
}

/// CMP: the carry is set exactly when `r >= m`, zero exactly when they are
/// equal, and negative is bit 7 of `(r - m) mod 256`.
pub proof fn lemma_compare(r: Byte, m: Byte)
    ensures
        compare_spec(r, m).0 == (r >= m),
        compare_spec(r, m).1 == (r == m),
        compare_spec(r, m).2 == (((r as int - m as int) % 256) >= 128),
{
}

} // verus!
