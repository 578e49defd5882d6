use emu6502::addressing_modes::{get_size, Address, AddressingMode};
use emu6502::components::{Flags, Ram, Registers};

#[test]
fn system_test_flags() {
    let mut cpu: Registers = Registers::default();
    cpu.set_flag(Flags::Zero, true);
    assert_eq!(cpu.test(Flags::Zero), true);
    cpu.set_flag(Flags::Zero, false);
    assert_eq!(cpu.test(Flags::Zero), false);
    cpu.set_flag(Flags::Zero, true);
    cpu.set_flag(Flags::Negative, true);
    cpu.set_flag(Flags::Int, true);
    assert_eq!(cpu.test(Flags::Zero), true);
    assert_eq!(cpu.test(Flags::Negative), true);
    assert_eq!(cpu.test(Flags::Int), true);
    cpu.set_flag(Flags::Negative, false);
    assert_eq!(cpu.test(Flags::Zero), true);
    assert_eq!(cpu.test(Flags::Negative), false);
    assert_eq!(cpu.test(Flags::Int), true);
}

#[test]
fn default_registers() {
    let regs = Registers::default();
    assert_eq!(regs.A, 0x00);
    assert_eq!(regs.X, 0x00);
    assert_eq!(regs.Y, 0x00);
    assert_eq!(regs.PC.to_u16(), 0x0000);
    assert_eq!(regs.flags, 0b0010_0000);
    assert!(regs.test(Flags::AlwaysOne));
}

#[test]
fn set_a_zero_value_sets_zero_not_negative() {
    let mut regs = Registers::default();
    regs.set_a(0x00);
    assert_eq!(regs.A, 0x00);
    assert_eq!(regs.test(Flags::Zero), true);
    assert_eq!(regs.test(Flags::Negative), false);
}

#[test]
fn set_a_high_bit_sets_negative_not_zero() {
    let mut regs = Registers::default();
    regs.set_a(0x80);
    assert_eq!(regs.A, 0x80);
    assert_eq!(regs.test(Flags::Zero), false);
    assert_eq!(regs.test(Flags::Negative), true);
}

#[test]
fn set_a_plain_value_clears_both() {
    let mut regs = Registers::default();
    regs.set_a(0x7F);
    assert_eq!(regs.A, 0x7F);
    assert_eq!(regs.test(Flags::Zero), false);
    assert_eq!(regs.test(Flags::Negative), false);
}

#[test]
fn add_a_carries_and_wraps() {
    let mut regs = Registers::default();
    regs.set_a(0xFF);
    regs.add_a(0x01);
    assert_eq!(regs.A, 0x00);
    assert_eq!(regs.test(Flags::Carry), true);
    assert_eq!(regs.test(Flags::Zero), true);
    assert_eq!(regs.test(Flags::Negative), false);
}

#[test]
fn add_a_without_carry_clears_carry() {
    let mut regs = Registers::default();
    regs.set_flag(Flags::Carry, true);
    regs.set_a(0x10);
    regs.add_a(0x0F);
    assert_eq!(regs.A, 0x1F);
    assert_eq!(regs.test(Flags::Carry), false);
    assert_eq!(regs.test(Flags::Zero), false);
}

#[test]
fn address_roundtrip_examples() {
    for v in [0x0000u16, 0x0001, 0x00FF, 0x0100, 0x12FF, 0xABCD, 0xFFFF] {
        let addr = Address::from_u16(v);
        assert_eq!(addr.to_u16(), v);
        assert_eq!(addr.to_usize(), v as usize);
    }
    let addr = Address::new(0x1234);
    assert_eq!(addr.to_usize(), 0x1234);
}

#[test]
fn same_page_add_wraps_within_page() {
    let addr = Address::new(0x12FF);
    assert_eq!(addr.same_page_add(1).to_usize(), 0x1200);
    let addr = Address::new(0x00FF);
    assert_eq!(addr.same_page_add(1).to_usize(), 0x0000);
    let addr = Address::new(0xFFFC);
    assert_eq!(addr.same_page_add(1).to_usize(), 0xFFFD);
    let addr = Address::new(0x1080);
    assert_eq!(addr.same_page_add(0x90).to_usize(), 0x1010);
    let addr = Address::new(0x2010);
    assert_eq!(addr.same_page_add(0x305).to_usize(), 0x2015);
}

#[test]
fn address_next_and_add() {
    let addr = Address::new(0x00FF);
    assert_eq!(addr.next().to_usize(), 0x0100);
    assert_eq!(addr.add(0x100).to_usize(), 0x01FF);
}

#[test]
fn operand_sizes_follow_the_mode_table() {
    assert_eq!(get_size(AddressingMode::A), 1);
    assert_eq!(get_size(AddressingMode::IMPL), 1);
    assert_eq!(get_size(AddressingMode::ABS), 3);
    assert_eq!(get_size(AddressingMode::ABSX), 3);
    assert_eq!(get_size(AddressingMode::ABSY), 3);
    assert_eq!(get_size(AddressingMode::IND), 3);
    assert_eq!(get_size(AddressingMode::IMM), 2);
    assert_eq!(get_size(AddressingMode::REL), 2);
    assert_eq!(get_size(AddressingMode::ZPG), 2);
    assert_eq!(get_size(AddressingMode::ZPGX), 2);
    assert_eq!(get_size(AddressingMode::ZPGY), 2);
    assert_eq!(get_size(AddressingMode::INDX), 2);
    assert_eq!(get_size(AddressingMode::INDY), 2);
}

#[test]
fn ram_starts_zeroed_and_stores_bytes() {
    let mut ram = Ram::new();
    assert_eq!(ram.read_at(0x0000), 0x00);
    assert_eq!(ram.read_at(0xFFFF), 0x00);
    ram.write(Address::new(0x0200), 0xAB);
    assert_eq!(ram.read(Address::new(0x0200)), 0xAB);
    assert_eq!(ram.read_at(0x0200), 0xAB);
}

#[test]
fn ram_load_replaces_everything() {
    let mut ram = Ram::new();
    ram.write(Address::new(0x0001), 0x11);
    let mut image = vec![0u8; 0x10000];
    image[0x0000] = 0xA9;
    image[0xFFFF] = 0x42;
    ram.load(image);
    assert_eq!(ram.read_at(0x0000), 0xA9);
    assert_eq!(ram.read_at(0x0001), 0x00);
    assert_eq!(ram.read_at(0xFFFF), 0x42);
}

#[test]
fn ram_read_range_copies_a_window() {
    let mut ram = Ram::new();
    ram.write(Address::new(0x0200), 0x01);
    ram.write(Address::new(0x0201), 0x02);
    ram.write(Address::new(0x0202), 0x03);
    let window = ram.read_range(0x0200, 0x0204);
    assert_eq!(window, vec![0x01, 0x02, 0x03, 0x00]);
    let empty = ram.read_range(0x0300, 0x0300);
    assert_eq!(empty.len(), 0);
}
