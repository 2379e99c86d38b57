use hemul::bus::Bus;
use hemul::cpu::instructions::{AddressMode, Cycles, Op, OpCode};
use hemul::cpu::registers::Registers;
use hemul::cpu::{Cpu, CpuError, Mode};
use hemul::memory::Memory;
use hemul::oscillator::Oscillator;
use hemul::{Addressable, Interruptible, Resettable, Snapshottable, Tickable, IRQ, NMI};

fn memory_with(parts: &[(usize, &[u8])]) -> Memory {
    let mut image = vec![0u8; 0x10000];
    for (org, bytes) in parts {
        for (i, b) in bytes.iter().enumerate() {
            image[org + i] = *b;
        }
    }
    Memory::using(image)
}

#[test]
fn memory_is_zeroed_and_total() {
    let m = Memory::new();
    let dump = m.snapshot();
    assert_eq!(dump.len(), 0x10000);
    assert!(dump.iter().all(|b| *b == 0));
    assert!(m.inside_bounds(0x0000));
    assert!(m.inside_bounds(0xFFFF));
    let d = Memory::default();
    assert_eq!(d.snapshot().len(), 0x10000);
}

#[test]
fn memory_from_bytes_pads_and_cuts() {
    let m = Memory::fill_from(&[1, 2, 3]);
    let dump = m.snapshot();
    assert_eq!(dump.len(), 0x10000);
    assert_eq!(&dump[..4], &[1, 2, 3, 0]);
    let long = vec![7u8; 0x10005];
    let m = Memory::fill_from(&long);
    assert_eq!(m.snapshot().len(), 0x10000);
    assert_eq!(m.read(0xFFFF), 7);
    let m = Memory::using(vec![9, 8]);
    assert_eq!(m.read(0x0001), 8);
    assert_eq!(m.read(0x0002), 0);
}

#[test]
fn memory_write_then_read() {
    let mut m = Memory::new();
    m.write(0x1234, 0xAB);
    assert_eq!(m.read(0x1234), 0xAB);
    assert_eq!(m.read(0x1235), 0x00);
}

#[test]
fn bus_routes_to_first_matching_device() {
    let mut bus: Bus<Memory> = Bus::new();
    bus.connect("low", 0x0000, 0x7FFF, memory_with(&[(0x0010, &[0x11])]));
    bus.connect("high", 0x0000, 0xFFFF, memory_with(&[(0x0010, &[0x22]), (0x9000, &[0x33])]));
    assert_eq!(bus.read(0x0010), 0x11);
    assert_eq!(bus.read(0x9000), 0x33);
    bus.write(0x0020, 0x44);
    assert_eq!(bus.read(0x0020), 0x44);
    let image = bus.snapshot();
    assert_eq!(image.len(), 0x10000);
    assert_eq!(image[0x0010], 0x11);
    assert_eq!(image[0x0020], 0x44);
    assert_eq!(image[0x9000], 0x33);
}

#[test]
fn bus_leaves_unrouted_addresses_out() {
    let mut bus: Bus<Memory> = Bus::default();
    assert!(!bus.inside_bounds(0x0000));
    assert_eq!(bus.snapshot().len(), 0);
    bus.connect("ram", 0x0000, 0x00FF, Memory::new());
    assert!(bus.inside_bounds(0x00FF));
    assert!(!bus.inside_bounds(0x0100));
    let image = bus.snapshot();
    assert_eq!(image.len(), 0x100);
}

#[test]
fn cpu_on_a_bus_runs_a_program() {
    let mut bus: Bus<Memory> = Bus::new();
    // LDA #$07; STA $0300; NOP
    bus.connect("memory", 0, 0xFFFF, memory_with(&[(0, &[0xA9, 0x07, 0x8D, 0x00, 0x03, 0xEA])]));
    let mut cpu = Cpu::new(bus);
    cpu.reset().expect("reset");
    cpu.tick_until_nop().expect("run");
    let s = cpu.snapshot().expect("snapshot");
    assert_eq!(s.A, 0x07);
    assert_eq!(s.dump[0x0300], 0x07);
}

#[test]
fn unmapped_addresses_fail() {
    let mut bus: Bus<Memory> = Bus::new();
    // LDA $9000
    bus.connect("ram", 0x0000, 0x7FFF, memory_with(&[(0, &[0xAD, 0x00, 0x90])]));
    let mut cpu = Cpu::new(bus);
    assert_eq!(cpu.reset(), Err(CpuError::ResetFailed(0xFFFC)));
    assert_eq!(cpu.tick(), Err(CpuError::OutOfBounds(0x9000)));
    assert_eq!(cpu.regs.PC, 0x0000);
    assert_eq!(cpu.write(0x9000, 1), Err(CpuError::OutOfBounds(0x9000)));
    assert_eq!(cpu.write(0x0100, 1), Ok(()));
    assert_eq!(cpu.read(0x0100), Ok(1));
}

#[test]
fn operand_address_of_implicit_mode_is_refused() {
    let cpu = Cpu::new(Memory::new());
    let regs = Registers::zeroed();
    assert_eq!(cpu.fetch_addr(AddressMode::Implicit, &regs), Err(CpuError::InvalidAddressMode));
    assert_eq!(cpu.fetch_addr(AddressMode::Accumulator, &regs), Err(CpuError::InvalidAddressMode));
}

#[test]
fn decode_table_entries() {
    assert_eq!(
        Op::try_from(0xA9u8),
        Ok(Op(OpCode::Lda, AddressMode::Immediate, Cycles::Constant(2)))
    );
    assert_eq!(
        Op::try_from(0xB1u8),
        Ok(Op(OpCode::Lda, AddressMode::IndirectIndexed, Cycles::Page(5)))
    );
    assert_eq!(Op::try_from(0x6Cu8), Ok(Op(OpCode::Jmp, AddressMode::Indirect, Cycles::Constant(5))));
    assert_eq!(Op::try_from(0xFFu8), Err(CpuError::BadOpCode(0xFF)));
    let assigned = (0u16..=255).filter(|b| Op::decode(*b as u8).is_some()).count();
    assert_eq!(assigned, 151);
}

#[test]
fn reset_twice_equals_reset_once() {
    let mut cpu = Cpu::new(memory_with(&[(0xFFFC, &[0x34, 0x12])]));
    cpu.regs.A = 9;
    cpu.regs.C = true;
    cpu.reset().expect("reset");
    let once = cpu.regs;
    cpu.reset().expect("reset");
    assert_eq!(cpu.regs, once);
    assert_eq!(once.PC, 0x1234);
    assert_eq!(once.SP, 0xFF);
    assert_eq!(once.A, 0);
    assert!(once.C);
    assert!(!once.I);
}

#[test]
fn nmi_and_irq_push_frames() {
    // $8000: RTI / NMI vector $8000, IRQ vector $9000
    let mut cpu = Cpu::new(memory_with(&[
        (0x0200, &[0xEA]),
        (0x8000, &[0x40]),
        (0xFFFA, &[0x00, 0x80]),
        (0xFFFC, &[0x00, 0x02]),
        (0xFFFE, &[0x00, 0x90]),
    ]));
    cpu.reset().expect("reset");
    cpu.regs.C = true;
    cpu.interrupt(NMI).expect("nmi");
    assert_eq!(cpu.regs.PC, 0x8000);
    assert!(cpu.regs.I);
    assert_eq!(cpu.regs.SP, 0xFC);
    let s = cpu.snapshot().expect("snapshot");
    assert_eq!(s.dump[0x01FF], 0x01);
    assert_eq!(s.dump[0x01FE], 0xFF);
    assert_eq!(s.dump[0x01FD], 0x40);
    // With interrupts disabled an IRQ is ignored.
    cpu.interrupt(IRQ).expect("irq");
    assert_eq!(cpu.regs.PC, 0x8000);
    // RTI restores the flags and resumes where the interrupt came.
    cpu.tick().expect("rti");
    assert_eq!(cpu.regs.PC, 0x0200);
    assert_eq!(cpu.regs.SP, 0xFF);
    assert!(!cpu.regs.I);
    assert!(cpu.regs.C);
    cpu.interrupt(IRQ).expect("irq");
    assert_eq!(cpu.regs.PC, 0x9000);
}

#[test]
fn interrupt_without_stack_fails() {
    let mut bus: Bus<Memory> = Bus::new();
    bus.connect("zero", 0x0000, 0x00FF, Memory::new());
    bus.connect("top", 0xFF00, 0xFFFF, Memory::new());
    let mut cpu = Cpu::new(bus);
    cpu.reset().expect("reset");
    assert_eq!(cpu.interrupt(NMI), Err(CpuError::InterruptFailed(0x01FF)));
    assert_eq!(cpu.regs.SP, 0xFF);
}

#[test]
fn cycle_counted_mode_burns_cycles() {
    // LDA #$01; LDA #$02; NOP
    let mut cpu = Cpu::new(memory_with(&[(0, &[0xA9, 0x01, 0xA9, 0x02, 0xEA])]));
    cpu.mode_set(Mode::Original(0));
    cpu.reset().expect("reset");
    cpu.tick().expect("tick");
    assert_eq!(cpu.regs.A, 0x01);
    assert_eq!(cpu.mode, Mode::Original(1));
    cpu.tick().expect("tick");
    assert_eq!(cpu.regs.A, 0x01);
    assert_eq!(cpu.mode, Mode::Original(0));
    cpu.tick_for(1).expect("tick");
    assert_eq!(cpu.regs.A, 0x02);
    assert_eq!(cpu.regs.PC, 0x0004);
}

#[test]
fn taken_branch_costs_more_cycles() {
    // CLC; BCC +0 (taken, same page); NOP
    let mut cpu = Cpu::new(memory_with(&[(0, &[0x18, 0x90, 0x00, 0xEA])]));
    cpu.mode_set(Mode::Original(0));
    cpu.reset().expect("reset");
    cpu.tick_for(3).expect("ticks");
    assert_eq!(cpu.regs.PC, 0x0003);
    assert_eq!(cpu.mode, Mode::Original(2));
    // A taken branch onto another page costs two more.
    // $00FD: CLC; BCC +1 lands at $0101
    let mut cpu = Cpu::new(memory_with(&[(0x00FC, &[0x18, 0x90, 0x01]), (0xFFFC, &[0xFC, 0x00])]));
    cpu.mode_set(Mode::Original(0));
    cpu.reset().expect("reset");
    cpu.tick_for(3).expect("ticks");
    assert_eq!(cpu.regs.PC, 0x0100);
    assert_eq!(cpu.mode, Mode::Original(3));
}

#[test]
fn tick_for_stops_at_first_failure() {
    // NOP; NOP; then an unassigned opcode
    let mut cpu = Cpu::new(memory_with(&[(0, &[0xEA, 0xEA, 0x02])]));
    cpu.reset().expect("reset");
    assert_eq!(cpu.tick_for(5), Err(CpuError::BadOpCode(0x02)));
    assert_eq!(cpu.regs.PC, 0x0002);
}

#[test]
fn oscillator_reports_failing_device_by_name() {
    let mut osc: Oscillator<Cpu<Memory>> = Oscillator::from_hertz(1_000);
    let mut good = Cpu::new(memory_with(&[(0, &[0xEA])]));
    good.reset().expect("reset");
    let mut bad = Cpu::new(memory_with(&[(0, &[0x02])]));
    bad.reset().expect("reset");
    osc.connect("good", good);
    osc.connect("bad", bad);
    match osc.pass() {
        Err(CpuError::ChildTick(name, cause)) => {
            assert_eq!(name, "bad");
            assert_eq!(*cause, CpuError::BadOpCode(0x02));
        },
        other => panic!("unexpected {:?}", other),
    }
}

#[test]
fn oscillator_interval_from_frequency() {
    let osc: Oscillator<Cpu<Memory>> = Oscillator::from_hertz(1_000);
    assert!(!osc.due(1_000_000));
    assert!(osc.due(1_000_001));
    let osc: Oscillator<Cpu<Memory>> = Oscillator::from_megahertz(2);
    assert!(!osc.due(500));
    assert!(osc.due(501));
    let mut osc: Oscillator<Cpu<Memory>> = Oscillator::new(u64::MAX);
    assert!(osc.tick().is_ok());
}
