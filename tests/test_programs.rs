use hemul::cpu::snapshot::Snapshot;
use hemul::cpu::{Cpu, CpuError};
use hemul::memory::Memory;
use hemul::{Resettable, Snapshottable};

/// Loads `parts` (each an origin and its bytes) into zeroed memory, resets,
/// and runs until the next instruction is a NOP.
fn run(parts: &[(usize, &[u8])]) -> Snapshot {
    let mut image = vec![0u8; 0x10000];
    for (org, bytes) in parts {
        for (i, b) in bytes.iter().enumerate() {
            image[org + i] = *b;
        }
    }
    let mut cpu = Cpu::new(Memory::using(image));
    cpu.reset().expect("Resetting CPU failed");
    let res = cpu.tick_until_nop();
    let snapshot = cpu.snapshot();
    assert!(res.is_ok(), "{:?}", res);
    snapshot.expect("snapshot")
}

/// Like `run`, but hands back the outcome of running.
fn run_result(parts: &[(usize, &[u8])]) -> Result<(), CpuError> {
    let mut image = vec![0u8; 0x10000];
    for (org, bytes) in parts {
        for (i, b) in bytes.iter().enumerate() {
            image[org + i] = *b;
        }
    }
    let mut cpu = Cpu::new(Memory::using(image));
    cpu.reset().expect("Resetting CPU failed");
    cpu.tick_until_nop()
}

#[test]
fn test_branching() {
    // CLC; BCC skip1; LDA #$20; skip1: SEC; BCS skip2; LDA #$20; skip2: NOP
    let snapshot = run(&[(0, &[0x18, 0x90, 0x02, 0xA9, 0x20, 0x38, 0xB0, 0x02, 0xA9, 0x20, 0xEA])]);
    assert_eq!(snapshot.A, 0x00);
}

#[test]
fn test_instr_interrupt() {
    // BRK; LDX #$42; NOP / $8000: LDY #$43; RTS / $FFFE: .word $8000
    let snapshot = run(&[
        (0, &[0x00, 0xA2, 0x42, 0xEA]),
        (0x8000, &[0xA0, 0x43, 0x60]),
        (0xFFFE, &[0x00, 0x80]),
    ]);
    assert_eq!(snapshot.X, 0x42);
    assert_eq!(snapshot.Y, 0x43);
}

#[test]
fn test_instr_jmp_absolute() {
    // JMP $8000 / $8000: LDA #$20; NOP
    let snapshot = run(&[(0, &[0x4C, 0x00, 0x80]), (0x8000, &[0xA9, 0x20, 0xEA])]);
    assert_eq!(snapshot.A, 0x20);
}

#[test]
fn test_instr_jmp_indirect() {
    // JMP ($8000) / $8000: .word $9000 / $9000: LDA #$20; NOP
    let snapshot = run(&[
        (0, &[0x6C, 0x00, 0x80]),
        (0x8000, &[0x00, 0x90]),
        (0x9000, &[0xA9, 0x20, 0xEA]),
    ]);
    assert_eq!(snapshot.A, 0x20);
}

#[test]
fn test_instr_jsr_and_rts() {
    // JSR setx; LDY #$22; NOP; LDA #$20; setx: LDX #$21; RTS; NOP; LDA #$20
    let snapshot = run(&[(
        0,
        &[0x20, 0x08, 0x00, 0xA0, 0x22, 0xEA, 0xA9, 0x20, 0xA2, 0x21, 0x60, 0xEA, 0xA9, 0x20],
    )]);
    assert_eq!(snapshot.A, 0x00);
    assert_eq!(snapshot.X, 0x21);
    assert_eq!(snapshot.Y, 0x22);
}

#[test]
fn simple_addition() {
    // LDA #01; ADC #02; STA $0402; NOP
    let snapshot = run(&[(0, &[0xA9, 0x01, 0x69, 0x02, 0x8D, 0x02, 0x04, 0xEA])]);
    assert_eq!(snapshot.dump[0x0402], 3);
}

#[test]
fn test_instr_flag_clc() {
    // LDA #%11110111; PHA; PLP; CLC; NOP
    let snapshot = run(&[(0, &[0xA9, 0b1111_0111, 0x48, 0x28, 0x18, 0xEA])]);
    assert!(!snapshot.C);
}

#[test]
fn test_instr_flag_cli() {
    // LDA #%11110111; PHA; PLP; CLI; NOP
    let snapshot = run(&[(0, &[0xA9, 0b1111_0111, 0x48, 0x28, 0x58, 0xEA])]);
    assert!(!snapshot.I);
}

#[test]
fn test_instr_flag_clv() {
    // LDA #%11110111; PHA; PLP; CLV; NOP
    let snapshot = run(&[(0, &[0xA9, 0b1111_0111, 0x48, 0x28, 0xB8, 0xEA])]);
    assert!(!snapshot.V);
}

#[test]
fn test_instr_flag_sec() {
    // LDA #%00000000; PHA; PLP; SEC; NOP
    let snapshot = run(&[(0, &[0xA9, 0b0000_0000, 0x48, 0x28, 0x38, 0xEA])]);
    assert!(snapshot.C);
}

#[test]
fn test_instr_flag_sei() {
    // LDA #%00000000; PHA; PLP; SEI; NOP
    let snapshot = run(&[(0, &[0xA9, 0b0000_0000, 0x48, 0x28, 0x78, 0xEA])]);
    assert!(snapshot.I);
}

#[test]
fn test_trans_s_to_x() {
    // TSX; NOP
    let snapshot = run(&[(0, &[0xBA, 0xEA])]);
    assert_eq!(snapshot.X, 0xFF);
}

#[test]
fn test_trans_x_to_s() {
    // LDX #$55; TXS; NOP
    let snapshot = run(&[(0, &[0xA2, 0x55, 0x9A, 0xEA])]);
    assert_eq!(snapshot.SP, 0x55);
}

#[test]
fn test_stack_push_a() {
    // LDA #$DE; PHA; NOP
    let snapshot = run(&[(0, &[0xA9, 0xDE, 0x48, 0xEA])]);
    assert_eq!(snapshot.dump[0x01FF], 0xDE);
}

#[test]
fn test_stack_push_s() {
    // LDA #$FF; PHP; NOP
    let snapshot = run(&[(0, &[0xA9, 0xFF, 0x08, 0xEA])]);
    //                                   CZIDBVN
    assert_eq!(snapshot.dump[0x01FF], 0b00000001);
}

#[test]
fn test_stack_pull_a() {
    // PLA; NOP / $0100: .word $1234
    let snapshot = run(&[(0, &[0x68, 0xEA]), (0x0100, &[0x34, 0x12])]);
    assert_eq!(snapshot.A, 0x34);
}

#[test]
fn addition_without_carry_scenario() {
    // LDA #$F0; CLC; ADC #$20; STA $4000; LDA #$30; ADC #$01; STA $4001; NOP
    let snapshot = run(&[(
        0,
        &[
            0xA9, 0xF0, 0x18, 0x69, 0x20, 0x8D, 0x00, 0x40, 0xA9, 0x30, 0x69, 0x01, 0x8D, 0x01,
            0x40, 0xEA,
        ],
    )]);
    assert_eq!(snapshot.dump[0x4000], 0x10);
    assert_eq!(snapshot.dump[0x4001], 0x32);
    assert!(!snapshot.C);
}

#[test]
fn lda_indirect_indexed_scenario() {
    // LDY #$10; LDA ($86),Y; NOP with $0086 = $4028 and $4038 = $77
    let snapshot = run(&[
        (0, &[0xA0, 0x10, 0xB1, 0x86, 0xEA]),
        (0x0086, &[0x28, 0x40]),
        (0x4038, &[0x77]),
    ]);
    assert_eq!(snapshot.A, 0x77);
    assert!(!snapshot.Z);
    assert!(!snapshot.N);
}

#[test]
fn rol_with_carry_scenario() {
    for a in [0x00u8, 0x40, 0x81, 0xFF] {
        // SEC; LDA #a; ROL A; NOP
        let snapshot = run(&[(0, &[0x38, 0xA9, a, 0x2A, 0xEA])]);
        assert_eq!(snapshot.A, ((((a as u16) << 1) | 1) & 0xFF) as u8);
        assert_eq!(snapshot.C, (a >> 7) & 1 == 1);
    }
}

#[test]
fn push_then_pull_restores_byte_and_pointer() {
    // LDA #$5A; PHA; LDA #$00; PLA; NOP
    let snapshot = run(&[(0, &[0xA9, 0x5A, 0x48, 0xA9, 0x00, 0x68, 0xEA])]);
    assert_eq!(snapshot.A, 0x5A);
    assert_eq!(snapshot.SP, 0xFF);
    // With the stack pointer at $00 the push wraps to $FF and back.
    // LDX #$00; TXS; LDA #$A5; PHA; LDA #$00; PLA; NOP
    let snapshot = run(&[(0, &[0xA2, 0x00, 0x9A, 0xA9, 0xA5, 0x48, 0xA9, 0x00, 0x68, 0xEA])]);
    assert_eq!(snapshot.A, 0xA5);
    assert_eq!(snapshot.SP, 0x00);
    assert_eq!(snapshot.dump[0x0100], 0xA5);
}

#[test]
fn status_push_pull_restores_flags() {
    // SEC; SEI; LDA #$80; PHP; CLC; CLI; LDA #$01; PLP; NOP
    let snapshot = run(&[(0, &[0x38, 0x78, 0xA9, 0x80, 0x08, 0x18, 0x58, 0xA9, 0x01, 0x28, 0xEA])]);
    assert!(snapshot.C);
    assert!(snapshot.I);
    assert!(snapshot.N);
    assert!(!snapshot.Z);
    assert!(!snapshot.V);
    assert_eq!(snapshot.dump[0x01FF], 0b0101_0001);
}

#[test]
fn adc_flags_and_overflow() {
    // CLC; LDA #$80; ADC #$80; NOP
    let snapshot = run(&[(0, &[0x18, 0xA9, 0x80, 0x69, 0x80, 0xEA])]);
    assert_eq!(snapshot.A, 0x00);
    assert!(snapshot.C);
    assert!(snapshot.Z);
    assert!(!snapshot.N);
    assert!(snapshot.V);
    // CLC; LDA #$50; ADC #$50; NOP: positive overflow into bit 7.
    let snapshot = run(&[(0, &[0x18, 0xA9, 0x50, 0x69, 0x50, 0xEA])]);
    assert_eq!(snapshot.A, 0xA0);
    assert!(!snapshot.C);
    assert!(snapshot.N);
    assert!(snapshot.V);
}

#[test]
fn sbc_borrow_and_overflow() {
    // SEC; LDA #$50; SBC #$F0; NOP: 0x50 - 0xF0 = 0x60 with a borrow.
    let snapshot = run(&[(0, &[0x38, 0xA9, 0x50, 0xE9, 0xF0, 0xEA])]);
    assert_eq!(snapshot.A, 0x60);
    assert!(!snapshot.C);
    assert!(!snapshot.V);
    // SEC; LDA #$50; SBC #$B0; NOP: 80 - (-80) overflows.
    let snapshot = run(&[(0, &[0x38, 0xA9, 0x50, 0xE9, 0xB0, 0xEA])]);
    assert_eq!(snapshot.A, 0xA0);
    assert!(!snapshot.C);
    assert!(snapshot.V);
    // CLC; LDA #$05; SBC #$02; NOP: the clear carry takes one more.
    let snapshot = run(&[(0, &[0x18, 0xA9, 0x05, 0xE9, 0x02, 0xEA])]);
    assert_eq!(snapshot.A, 0x02);
    assert!(snapshot.C);
}

#[test]
fn cmp_sets_carry_zero_negative() {
    // LDA #$10; CMP #$20; NOP
    let snapshot = run(&[(0, &[0xA9, 0x10, 0xC9, 0x20, 0xEA])]);
    assert!(!snapshot.C);
    assert!(!snapshot.Z);
    assert!(snapshot.N);
    // LDA #$20; CMP #$20; NOP
    let snapshot = run(&[(0, &[0xA9, 0x20, 0xC9, 0x20, 0xEA])]);
    assert!(snapshot.C);
    assert!(snapshot.Z);
    assert!(!snapshot.N);
    // LDX #$FF; CPX #$01; NOP
    let snapshot = run(&[(0, &[0xA2, 0xFF, 0xE0, 0x01, 0xEA])]);
    assert!(snapshot.C);
    assert!(!snapshot.Z);
    assert!(snapshot.N);
}

#[test]
fn backward_branch_counts_down() {
    // LDX #$03; loop: DEX; BNE loop; NOP
    let snapshot = run(&[(0, &[0xA2, 0x03, 0xCA, 0xD0, 0xFD, 0xEA])]);
    assert_eq!(snapshot.X, 0x00);
    assert!(snapshot.Z);
}

#[test]
fn shifts_and_bit() {
    // LDA #$81; LSR A; NOP
    let snapshot = run(&[(0, &[0xA9, 0x81, 0x4A, 0xEA])]);
    assert_eq!(snapshot.A, 0x40);
    assert!(snapshot.C);
    assert!(!snapshot.N);
    // LDA #$81; ASL A; NOP
    let snapshot = run(&[(0, &[0xA9, 0x81, 0x0A, 0xEA])]);
    assert_eq!(snapshot.A, 0x02);
    assert!(snapshot.C);
    // SEC; LDA #$02; ROR A; NOP
    let snapshot = run(&[(0, &[0x38, 0xA9, 0x02, 0x6A, 0xEA])]);
    assert_eq!(snapshot.A, 0x81);
    assert!(!snapshot.C);
    assert!(snapshot.N);
    // LDA #$01; BIT $0010; NOP with $0010 = $C0
    let snapshot = run(&[(0, &[0xA9, 0x01, 0x2C, 0x10, 0x00, 0xEA]), (0x0010, &[0xC0])]);
    assert!(snapshot.Z);
    assert!(snapshot.N);
    assert!(snapshot.V);
    assert_eq!(snapshot.A, 0x01);
}

#[test]
fn memory_read_modify_write() {
    // INC $0200; INC $0200; DEC $0201; ASL $0202; NOP
    let snapshot = run(&[
        (0, &[0xEE, 0x00, 0x02, 0xEE, 0x00, 0x02, 0xCE, 0x01, 0x02, 0x0E, 0x02, 0x02, 0xEA]),
        (0x0200, &[0xFF, 0x00, 0xC0]),
    ]);
    assert_eq!(snapshot.dump[0x0200], 0x01);
    assert_eq!(snapshot.dump[0x0201], 0xFF);
    assert_eq!(snapshot.dump[0x0202], 0x80);
    assert!(snapshot.C);
    assert!(snapshot.N);
}

#[test]
fn zero_page_indexing_wraps() {
    // LDX #$FF; LDA $80,X; NOP with $007F = $99 (and $017F = $11)
    let snapshot = run(&[(0, &[0xA2, 0xFF, 0xB5, 0x80, 0xEA]), (0x007F, &[0x99]), (0x017F, &[0x11])]);
    assert_eq!(snapshot.A, 0x99);
    // LDX #$10; LDA ($F8,X); NOP with $0008 = $3000 and $3000 = $42
    let snapshot = run(&[
        (0, &[0xA2, 0x10, 0xA1, 0xF8, 0xEA]),
        (0x0008, &[0x00, 0x30]),
        (0x3000, &[0x42]),
    ]);
    assert_eq!(snapshot.A, 0x42);
}

#[test]
fn absolute_indexing_crosses_pages() {
    // LDY #$20; LDA $20F0,Y; NOP with $2110 = $5C
    let snapshot = run(&[(0, &[0xA0, 0x20, 0xB9, 0xF0, 0x20, 0xEA]), (0x2110, &[0x5C])]);
    assert_eq!(snapshot.A, 0x5C);
}

#[test]
fn bad_opcode_is_reported() {
    assert_eq!(run_result(&[(0, &[0x02])]), Err(CpuError::BadOpCode(0x02)));
}

#[test]
fn decimal_mode_is_refused() {
    // SED
    assert_eq!(run_result(&[(0, &[0xF8])]), Err(CpuError::DecimalModeUnsupported));
    // PLP with the decimal bit on the stack: LDA #$08; PHA; PLP
    assert_eq!(
        run_result(&[(0, &[0xA9, 0x08, 0x48, 0x28])]),
        Err(CpuError::DecimalModeUnsupported)
    );
}

#[test]
fn endless_loop_is_reported() {
    // loop: JMP loop
    assert_eq!(run_result(&[(0, &[0x4C, 0x00, 0x00])]), Err(CpuError::EndlessLoop));
}
