use emu6502::addressing_modes::Address;
use emu6502::components::Flags;
use emu6502::error::CpuError;
use emu6502::system::System;

fn image_with(vector: u16, code: &[u8]) -> Vec<u8> {
    let mut image = vec![0u8; 0x10000];
    image[0xFFFC] = (vector & 0xFF) as u8;
    image[0xFFFD] = (vector >> 8) as u8;
    for (i, b) in code.iter().enumerate() {
        image[vector as usize + i] = *b;
    }
    image
}

#[test]
fn lda_sta_program() {
    // LDA #$05 at 0x0600, then STA $0200.
    let mut system = System::new();
    system.ram.load(image_with(0x0600, &[0xA9, 0x05, 0x8D, 0x00, 0x02]));
    assert!(system.can_step());
    assert!(system.step().is_ok());
    assert_eq!(system.registers.A, 0x05);
    assert_eq!(system.registers.PC.to_u16(), 0x0602);
    assert!(system.step().is_ok());
    assert_eq!(system.registers.A, 0x05);
    assert_eq!(system.ram.read_at(0x0200), 0x05);
    assert_eq!(system.registers.PC.to_u16(), 0x0605);
    assert_eq!(system.cycles, 2);
}

#[test]
fn unknown_opcode_leaves_state_unchanged() {
    let mut system = System::new();
    // NOP first, then the unassigned code 0x02.
    system.ram.load(image_with(0x0600, &[0xEA, 0x02]));
    assert!(system.step().is_ok());
    assert_eq!(system.cycles, 1);
    assert_eq!(system.registers.PC.to_u16(), 0x0601);
    let flags_before = system.registers.flags;
    assert_eq!(system.step(), Err(CpuError::UnknownOp(0x02)));
    assert_eq!(system.cycles, 1);
    assert_eq!(system.registers.PC.to_u16(), 0x0601);
    assert_eq!(system.registers.flags, flags_before);
}

#[test]
fn beq_taken_goes_back_two() {
    // LDA #$00 sets Zero, then BEQ with offset -2.
    let mut system = System::new();
    system.ram.load(image_with(0x0600, &[0xA9, 0x00, 0xF0, 0xFE]));
    assert!(system.step().is_ok());
    assert!(system.registers.test(Flags::Zero));
    assert_eq!(system.registers.PC.to_u16(), 0x0602);
    assert!(system.step().is_ok());
    assert_eq!(system.registers.PC.to_u16(), 0x0600);
    assert_eq!(system.cycles, 2);
}

#[test]
fn beq_not_taken_advances_by_two() {
    // LDA #$01 clears Zero, then BEQ with offset -2.
    let mut system = System::new();
    system.ram.load(image_with(0x0600, &[0xA9, 0x01, 0xF0, 0xFE]));
    assert!(system.step().is_ok());
    assert!(!system.registers.test(Flags::Zero));
    assert!(system.step().is_ok());
    assert_eq!(system.registers.PC.to_u16(), 0x0604);
    assert_eq!(system.cycles, 2);
}

#[test]
fn bne_branches_on_clear_zero() {
    // LDA #$01 clears Zero, then BNE forward by 2.
    let mut system = System::new();
    system.ram.load(image_with(0x0600, &[0xA9, 0x01, 0xD0, 0x02]));
    assert!(system.step().is_ok());
    assert!(system.step().is_ok());
    assert_eq!(system.registers.PC.to_u16(), 0x0604);
    // With Zero set it falls through instead.
    let mut system = System::new();
    system.ram.load(image_with(0x0600, &[0xA9, 0x00, 0xD0, 0x02]));
    assert!(system.step().is_ok());
    assert!(system.step().is_ok());
    assert_eq!(system.registers.PC.to_u16(), 0x0604);
}

#[test]
fn restart_retriggers_reset_vector() {
    let mut system = System::new();
    system.ram.load(image_with(0x0600, &[0xEA, 0xEA]));
    assert!(system.step().is_ok());
    assert_eq!(system.cycles, 1);
    system.restart();
    assert_eq!(system.cycles, 0);
    assert_eq!(system.registers.PC.to_u16(), 0x0000);
    assert_eq!(system.registers.A, 0x00);
    assert_eq!(system.ram.read_at(0x0600), 0x00);
    // A fresh program with a different reset vector is picked up by the next
    // step.
    system.ram.load(image_with(0x0700, &[0xEA]));
    assert!(system.step().is_ok());
    assert_eq!(system.registers.PC.to_u16(), 0x0701);
    assert_eq!(system.cycles, 1);
}

#[test]
fn brk_reports_break_and_keeps_state() {
    let mut system = System::new();
    system.ram.load(image_with(0x0600, &[0x00]));
    assert_eq!(system.step(), Err(CpuError::Break));
    // The implicit initialization set the program counter; nothing else
    // moved.
    assert_eq!(system.registers.PC.to_u16(), 0x0600);
    assert_eq!(system.cycles, 0);
}

#[test]
fn jmp_absolute_replaces_pc() {
    let mut system = System::new();
    system.ram.load(image_with(0x0600, &[0x4C, 0x00, 0x07]));
    assert!(system.step().is_ok());
    assert_eq!(system.registers.PC.to_u16(), 0x0700);
    assert_eq!(system.cycles, 1);
}

#[test]
fn adc_immediate_sets_carry_through_step() {
    // LDA #$FF, ADC #$01.
    let mut system = System::new();
    system.ram.load(image_with(0x0600, &[0xA9, 0xFF, 0x69, 0x01]));
    assert!(system.step().is_ok());
    assert!(system.step().is_ok());
    assert_eq!(system.registers.A, 0x00);
    assert!(system.registers.test(Flags::Carry));
    assert!(system.registers.test(Flags::Zero));
    assert_eq!(system.registers.PC.to_u16(), 0x0604);
}

#[test]
fn lda_absolute_and_zero_page() {
    // LDA $0700 (holding 0x42), then LDA $10 (holding 0x07).
    let mut system = System::new();
    let mut image = image_with(0x0600, &[0xAD, 0x00, 0x07, 0xA5, 0x10]);
    image[0x0700] = 0x42;
    image[0x0010] = 0x07;
    system.ram.load(image);
    assert!(system.step().is_ok());
    assert_eq!(system.registers.A, 0x42);
    assert!(system.step().is_ok());
    assert_eq!(system.registers.A, 0x07);
    assert_eq!(system.registers.PC.to_u16(), 0x0605);
}

#[test]
fn sta_zero_page_stores() {
    let mut system = System::new();
    system.ram.load(image_with(0x0600, &[0xA9, 0x33, 0x85, 0x20]));
    assert!(system.step().is_ok());
    assert!(system.step().is_ok());
    assert_eq!(system.ram.read_at(0x0020), 0x33);
}

#[test]
fn sta_indexed_indirect_follows_zero_page_pointer() {
    // With X = 4, STA ($3C,X) reads the pointer at 0x40/0x41.
    let mut system = System::new();
    let mut image = image_with(0x0600, &[0xA9, 0x77, 0x81, 0x3C]);
    image[0x0040] = 0x34;
    image[0x0041] = 0x12;
    system.ram.load(image);
    assert!(system.step().is_ok());
    system.registers.X = 0x04;
    assert!(system.step().is_ok());
    assert_eq!(system.ram.read_at(0x1234), 0x77);
}

#[test]
fn sta_indexed_indirect_pointer_wraps_in_page_zero() {
    // The pointer byte 0xFF takes its high byte from 0x00, not 0x100.
    let mut system = System::new();
    let mut image = image_with(0x0600, &[0xA9, 0x55, 0x81, 0xFF]);
    image[0x00FF] = 0x00;
    image[0x0000] = 0x03;
    image[0x0100] = 0x99;
    system.ram.load(image);
    assert!(system.step().is_ok());
    assert!(system.step().is_ok());
    assert_eq!(system.ram.read_at(0x0300), 0x55);
}

#[test]
fn unimplemented_mode_is_reported() {
    // 0xBD is LDA absolute,X: a legal opcode whose mode the engine lacks.
    let mut system = System::new();
    system.ram.load(image_with(0x0600, &[0xEA, 0xBD, 0x00, 0x07]));
    assert!(system.step().is_ok());
    assert_eq!(system.step(), Err(CpuError::UnimplementedAddressingMode));
    assert_eq!(system.registers.PC.to_u16(), 0x0601);
    assert_eq!(system.cycles, 1);
}

#[test]
fn invalid_pairing_is_reported() {
    // 0x29 is AND immediate: the mode resolves but the mnemonic has no
    // implemented pairing.
    let mut system = System::new();
    system.ram.load(image_with(0x0600, &[0xEA, 0x29, 0x01]));
    assert!(system.step().is_ok());
    assert_eq!(system.step(), Err(CpuError::InvalidAddressingMode));
    assert_eq!(system.registers.PC.to_u16(), 0x0601);
    assert_eq!(system.cycles, 1);
}

#[test]
fn can_step_refuses_overflowing_advance() {
    let mut system = System::new();
    system.ram.load(image_with(0x0600, &[0xEA]));
    assert!(system.step().is_ok());
    // A NOP on the very last byte of memory would advance past 0xFFFF.
    system.ram.write(Address::new(0xFFFF), 0xEA);
    system.registers.PC = Address::new(0xFFFF);
    assert!(!system.can_step());
    // A BRK there reports Break without advancing, so a step is fine.
    system.ram.write(Address::new(0xFFFF), 0x00);
    assert!(system.can_step());
    assert_eq!(system.step(), Err(CpuError::Break));
}
