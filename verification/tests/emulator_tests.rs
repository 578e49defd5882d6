use emu6502::emulator::Emulator as BasicEmulator;
use emu6502::error::CpuError;
use emu6502::sixty_five::cpu::{Cpu, Flags};
use emu6502::sixty_five::emulator::Emulator;
use emu6502::sixty_five::error::EmulatorError;

fn image_with(vector: u16, code: &[u8]) -> Vec<u8> {
    let mut image = vec![0u8; 0x10000];
    image[0xFFFC] = (vector & 0xFF) as u8;
    image[0xFFFD] = (vector >> 8) as u8;
    for (i, b) in code.iter().enumerate() {
        image[vector as usize + i] = *b;
    }
    image
}

#[test]
fn emulator_test_flags() {
    let mut cpu: Cpu = Cpu::default();
    cpu.set_flag(Flags::Zero, true);
    assert_eq!(cpu.test(Flags::Zero), true);
    cpu.set_flag(Flags::Zero, false);
    assert_eq!(cpu.test(Flags::Zero), false);
    cpu.set_flag(Flags::Zero, true);
    cpu.set_flag(Flags::Negative, true);
    cpu.set_flag(Flags::Int, true);
    assert_eq!(cpu.test(Flags::Zero), true);
    assert_eq!(cpu.test(Flags::Negative), true);
    assert_eq!(cpu.test(Flags::Int), true);
    cpu.set_flag(Flags::Negative, false);
    assert_eq!(cpu.test(Flags::Zero), true);
    assert_eq!(cpu.test(Flags::Negative), false);
    assert_eq!(cpu.test(Flags::Int), true);
}

#[test]
fn sixty_five_runs_a_program() {
    let mut emu = Emulator::new();
    emu.ram = image_with(0x0600, &[0xA9, 0x05, 0x8D, 0x00, 0x02]);
    assert!(emu.step().is_ok());
    assert_eq!(emu.cpu.A, 0x05);
    assert!(emu.step().is_ok());
    assert_eq!(emu.ram[0x0200], 0x05);
    assert_eq!(emu.cpu.PC, 0x0605);
    assert_eq!(emu.cycles, 2);
}

#[test]
fn sixty_five_halts_while_break_flag_is_set() {
    let mut emu = Emulator::new();
    emu.ram = image_with(0x0600, &[0xEA, 0xEA]);
    assert!(emu.step().is_ok());
    emu.cpu.set_flag(Flags::Break, true);
    assert_eq!(emu.step(), Err(EmulatorError::Break));
    assert_eq!(emu.cpu.PC, 0x0601);
    assert_eq!(emu.cycles, 1);
}

#[test]
fn sixty_five_brk_reports_break() {
    let mut emu = Emulator::new();
    emu.ram = image_with(0x0600, &[0x00]);
    assert_eq!(emu.step(), Err(EmulatorError::Break));
    assert_eq!(emu.cpu.PC, 0x0600);
    assert_eq!(emu.cycles, 0);
}

#[test]
fn sixty_five_unknown_opcode() {
    let mut emu = Emulator::new();
    emu.ram = image_with(0x0600, &[0xEA, 0x02]);
    assert!(emu.step().is_ok());
    assert_eq!(emu.step(), Err(EmulatorError::UnknownOp(0x02)));
    assert_eq!(emu.cpu.PC, 0x0601);
    assert_eq!(emu.cycles, 1);
}

#[test]
fn sixty_five_init_loads_reset_vector() {
    let mut emu = Emulator::new();
    emu.ram = image_with(0x1234, &[]);
    assert!(emu.init().is_ok());
    assert_eq!(emu.cpu.PC, 0x1234);
}

#[test]
fn sixty_five_restart_clears_everything() {
    let mut emu = Emulator::new();
    emu.ram = image_with(0x0600, &[0xA9, 0x80]);
    assert!(emu.step().is_ok());
    assert!(emu.cpu.test(Flags::Negative));
    emu.restart();
    assert_eq!(emu.cycles, 0);
    assert_eq!(emu.cpu.PC, 0x0000);
    assert_eq!(emu.cpu.A, 0x00);
    assert_eq!(emu.cpu.flags, 0b0010_0000);
    assert_eq!(emu.ram[0x0600], 0x00);
}

#[test]
fn sixty_five_adc_and_branch() {
    // LDA #$FF, ADC #$01 (sets Carry and Zero), then a taken BEQ. The
    // offset is measured from the branch opcode's own address, before any
    // advance: 0x0604 - 4 = 0x0600.
    let mut emu = Emulator::new();
    emu.ram = image_with(0x0600, &[0xA9, 0xFF, 0x69, 0x01, 0xF0, 0xFC]);
    assert!(emu.step().is_ok());
    assert!(emu.step().is_ok());
    assert_eq!(emu.cpu.A, 0x00);
    assert!(emu.cpu.test(Flags::Carry));
    assert!(emu.cpu.test(Flags::Zero));
    assert!(emu.step().is_ok());
    assert_eq!(emu.cpu.PC, 0x0600);
    assert_eq!(emu.cycles, 3);
}

#[test]
fn basic_emulator_starts_at_0600() {
    let emu = BasicEmulator::new();
    assert_eq!(emu.cpu.PC, 0x0600);
    assert_eq!(emu.cycles, 0);
}

#[test]
fn basic_emulator_loads_and_stores() {
    let mut emu = BasicEmulator::new();
    emu.ram[0x0600] = 0xA9; // LDA #$05
    emu.ram[0x0601] = 0x05;
    emu.ram[0x0602] = 0x8D; // STA $0200
    emu.ram[0x0603] = 0x00;
    emu.ram[0x0604] = 0x02;
    assert!(emu.step().is_ok());
    assert_eq!(emu.cpu.A, 0x05);
    assert!(emu.step().is_ok());
    assert_eq!(emu.ram[0x0200], 0x05);
    assert_eq!(emu.cpu.PC, 0x0605);
    // This generation never advances its cycle counter.
    assert_eq!(emu.cycles, 0);
}

#[test]
fn basic_emulator_adc_wraps_without_flags() {
    let mut emu = BasicEmulator::new();
    emu.ram[0x0600] = 0xA9; // LDA #$FF
    emu.ram[0x0601] = 0xFF;
    emu.ram[0x0602] = 0x69; // ADC #$02
    emu.ram[0x0603] = 0x02;
    assert!(emu.step().is_ok());
    assert!(emu.step().is_ok());
    assert_eq!(emu.cpu.A, 0x01);
}

#[test]
fn basic_emulator_brk_and_unknown() {
    let mut emu = BasicEmulator::new();
    assert_eq!(emu.step(), Err(CpuError::Break));
    emu.ram[0x0600] = 0x02;
    assert_eq!(emu.step(), Err(CpuError::UnknownOp(0x02)));
    assert_eq!(emu.cpu.PC, 0x0600);
}

#[test]
fn basic_emulator_nop_is_not_implemented() {
    // The first generation has no NOP arm: the pairing is rejected.
    let mut emu = BasicEmulator::new();
    emu.ram[0x0600] = 0xEA;
    assert_eq!(emu.step(), Err(CpuError::InvalidAddressingMode));
    // A mode it never resolves is reported as unimplemented.
    emu.ram[0x0600] = 0xF0; // BEQ relative
    emu.ram[0x0601] = 0xFE;
    assert_eq!(emu.step(), Err(CpuError::UnimplementedAddressingMode));
}

#[test]
fn basic_emulator_jmp_and_restart() {
    let mut emu = BasicEmulator::new();
    emu.ram[0x0600] = 0x4C; // JMP $0700
    emu.ram[0x0601] = 0x00;
    emu.ram[0x0602] = 0x07;
    assert!(emu.step().is_ok());
    assert_eq!(emu.cpu.PC, 0x0700);
    emu.restart();
    assert_eq!(emu.cpu.PC, 0x0600);
    assert_eq!(emu.ram[0x0600], 0x00);
}
