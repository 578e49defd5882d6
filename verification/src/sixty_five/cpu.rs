//! The register file of this engine generation: the same status-flag
//! behaviour as the current `components::Registers`, with a plain 16-bit
//! program counter.

use vstd::prelude::*;

use crate::components::{
    flag_set, spec_add_a, spec_set_a, spec_set_flag, RegsView, FLAG_ALWAYS_ONE, FLAG_BREAK,
    FLAG_CARRY, FLAG_DECIMAL, FLAG_INT, FLAG_NEGATIVE, FLAG_OVERFLOW, FLAG_ZERO,
};

verus! {

/// The status flags, one per bit of the status byte.
#[derive(Copy, Clone, PartialEq, Eq, Structural, Debug)]
pub enum Flags {
    Negative,
    Overflow,
    AlwaysOne,
    Break,
    Decimal,
    Int,
    Zero,
    Carry,
}

/// The single status-byte bit that a flag occupies.
pub open spec fn spec_flag_mask(flag: Flags) -> u8 {
    match flag {
        Flags::Negative => FLAG_NEGATIVE,
        Flags::Overflow => FLAG_OVERFLOW,
        Flags::AlwaysOne => FLAG_ALWAYS_ONE,
        Flags::Break => FLAG_BREAK,
        Flags::Decimal => FLAG_DECIMAL,
        Flags::Int => FLAG_INT,
        Flags::Zero => FLAG_ZERO,
        Flags::Carry => FLAG_CARRY,
    }
}

impl Flags {
    /// The flag's bit as a mask over the status byte.
    pub fn mask(self) -> (r: u8)
        ensures
            r == spec_flag_mask(self),
    {
        match self {
            Flags::Negative => FLAG_NEGATIVE,
            Flags::Overflow => FLAG_OVERFLOW,
            Flags::AlwaysOne => FLAG_ALWAYS_ONE,
            Flags::Break => FLAG_BREAK,
            Flags::Decimal => FLAG_DECIMAL,
            Flags::Int => FLAG_INT,
            Flags::Zero => FLAG_ZERO,
            Flags::Carry => FLAG_CARRY,
        }
    }
}

/// The register file of this generation: accumulator, X and Y index
/// registers, 16-bit program counter and the status byte.
#[allow(non_snake_case)]
pub struct Cpu {
    pub A: u8,
    pub X: u8,
    pub Y: u8,
    pub PC: u16,
    pub flags: u8,
}

impl View for Cpu {
    type V = RegsView;

    open spec fn view(&self) -> RegsView {
        RegsView { a: self.A, x: self.X, y: self.Y, pc: self.PC as int, flags: self.flags }
    }
}

impl Cpu {
    /// Whether a status flag is set.
    pub fn test(&self, flag: Flags) -> (r: bool)
        ensures
            r == flag_set(self@.flags, spec_flag_mask(flag)),
    {
        (self.flags & flag.mask()) != 0
    }

    /// Set or clear exactly one status flag, leaving the others untouched.
    pub fn set_flag(&mut self, flag: Flags, status: bool)
        ensures
            final(self)@ == (RegsView {
                flags: spec_set_flag(old(self)@.flags, spec_flag_mask(flag), status),
                ..old(self)@
            }),
    {
        if status {
            self.flags = self.flags | flag.mask();
        } else {
            self.flags = self.flags & !flag.mask();
        }
    }

    /// 9-bit addition of accumulator and operand: Carry is set to the
    /// overflow out of bit 7 (carry-out only; the Carry flag is never read),
    /// and the truncated sum is written through `set_a`.
    pub fn add_a(&mut self, n: u8)
        ensures
            final(self)@ == spec_add_a(old(self)@, n),
            final(self)@.a == (old(self)@.a + n) % 0x100,
            flag_set(final(self)@.flags, FLAG_CARRY) == (old(self)@.a + n > 0xFF),
    {
        let n16 = n as u16;
        let a16 = self.A as u16;
        let res = n16 + a16;
        if res > 0xFF {
            self.set_flag(Flags::Carry, true);
        } else {
            self.set_flag(Flags::Carry, false);
        }
        self.set_a((res % 0x100) as u8);
        proof {
            crate::components::lemma_set_a_flag_bits(
                spec_set_flag(old(self)@.flags, FLAG_CARRY, old(self)@.a + n > 0xFF),
                (res % 0x100) as u8,
            );
            crate::components::lemma_set_flag_bits(
                old(self)@.flags,
                crate::components::Flags::Carry,
                old(self)@.a + n > 0xFF,
                crate::components::Flags::Carry,
            );
        }
    }

    /// Write the accumulator, recomputing Zero from the value and Negative
    /// from its sign bit.
    pub fn set_a(&mut self, value: u8)
        ensures
            final(self)@ == spec_set_a(old(self)@, value),
            final(self)@.a == value,
            flag_set(final(self)@.flags, FLAG_ZERO) == (value == 0),
            flag_set(final(self)@.flags, FLAG_NEGATIVE) == (value >= 0x80),
            flag_set(final(self)@.flags, FLAG_CARRY) == flag_set(old(self)@.flags, FLAG_CARRY),
    {
        self.set_flag(Flags::Zero, value == 0);
        self.set_flag(Flags::Negative, value & 0x80 != 0);
        self.A = value;
        proof {
            crate::components::lemma_set_a_flag_bits(old(self)@.flags, value);
            assert((value & 0x80 != 0) == (value >= 0x80)) by (bit_vector);
        }
    }
}

impl Default for Cpu {
    /// The power-on register file: registers cleared, program counter zero,
    /// only the fixed bit 5 of the status byte set.
    fn default() -> (r: Self)
        ensures
            r@ == crate::components::spec_default_regs(),
    {
        Cpu { A: 0x00, X: 0x00, Y: 0x00, PC: 0x0000, flags: FLAG_ALWAYS_ONE }
    }
}

} // verus!
