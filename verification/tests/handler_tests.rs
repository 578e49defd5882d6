use emu6502::error::CpuError;
use emu6502::handler::{apply_command, Cmd, GetType};
use emu6502::system::System;

fn image_with(vector: u16, code: &[u8]) -> Vec<u8> {
    let mut image = vec![0u8; 0x10000];
    image[0xFFFC] = (vector & 0xFF) as u8;
    image[0xFFFD] = (vector >> 8) as u8;
    for (i, b) in code.iter().enumerate() {
        image[vector as usize + i] = *b;
    }
    image
}

#[test]
fn reset_loads_the_program_image() {
    let mut system = System::new();
    let program = image_with(0x0600, &[0xA9, 0x2A]);
    let r = apply_command(&mut system, Cmd::Reset, &program);
    assert_eq!(r, Ok(None));
    assert_eq!(system.cycles, 0);
    assert_eq!(system.ram.read_at(0x0600), 0xA9);
    assert_eq!(system.ram.read_at(0xFFFC), 0x00);
    assert_eq!(system.ram.read_at(0xFFFD), 0x06);
}

#[test]
fn step_command_runs_one_instruction() {
    let mut system = System::new();
    let program = image_with(0x0600, &[0xA9, 0x2A, 0x00]);
    assert_eq!(apply_command(&mut system, Cmd::Reset, &program), Ok(None));
    assert_eq!(apply_command(&mut system, Cmd::Step, &program), Ok(None));
    assert_eq!(system.registers.A, 0x2A);
    assert_eq!(system.cycles, 1);
    // The BRK that follows surfaces as the Break failure.
    assert_eq!(apply_command(&mut system, Cmd::Step, &program), Err(CpuError::Break));
    assert_eq!(system.cycles, 1);
}

#[test]
fn get_range_copies_memory() {
    let mut system = System::new();
    let mut program = image_with(0x0600, &[]);
    program[0x0200] = 0x0A;
    program[0x0201] = 0x0B;
    assert_eq!(apply_command(&mut system, Cmd::Reset, &program), Ok(None));
    let r = apply_command(&mut system, Cmd::Get(GetType::Range(0x0200, 0x0203)), &program);
    assert_eq!(r, Ok(Some(vec![0x0A, 0x0B, 0x00])));
    assert_eq!(system.cycles, 0);
}

#[test]
fn get_value_copies_one_byte() {
    let mut system = System::new();
    let mut program = image_with(0x0600, &[]);
    program[0x1234] = 0x5C;
    assert_eq!(apply_command(&mut system, Cmd::Reset, &program), Ok(None));
    let r = apply_command(&mut system, Cmd::Get(GetType::Value(0x1234)), &program);
    assert_eq!(r, Ok(Some(vec![0x5C])));
}

#[test]
fn run_stop_and_flags_change_nothing_here() {
    let mut system = System::new();
    let program = image_with(0x0600, &[0xA9, 0x01]);
    assert_eq!(apply_command(&mut system, Cmd::Run, &program), Ok(None));
    assert_eq!(apply_command(&mut system, Cmd::Stop, &program), Ok(None));
    assert_eq!(apply_command(&mut system, Cmd::Get(GetType::Flags), &program), Ok(None));
    assert_eq!(system.cycles, 0);
    assert_eq!(system.ram.read_at(0x0600), 0x00);
}
