//! The register file and the memory: a 64 KiB byte array indexed through
//! `Address`, and the accumulator/index/program-counter/status-flags store
//! whose accumulator setters keep the Zero, Negative and Carry flags in step.

use vstd::prelude::*;

use crate::addressing_modes::Address;

verus! {

/// Bit of the Negative flag in the status byte.
pub const FLAG_NEGATIVE: u8 = 0x80;

/// Bit of the Overflow flag in the status byte.
pub const FLAG_OVERFLOW: u8 = 0x40;

/// Bit 5 of the status byte, fixed at 1 by hardware convention.
pub const FLAG_ALWAYS_ONE: u8 = 0x20;

/// Bit of the Break flag in the status byte.
pub const FLAG_BREAK: u8 = 0x10;

/// Bit of the Decimal flag in the status byte.
pub const FLAG_DECIMAL: u8 = 0x08;

/// Bit of the Interrupt-disable flag in the status byte.
pub const FLAG_INT: u8 = 0x04;

/// Bit of the Zero flag in the status byte.
pub const FLAG_ZERO: u8 = 0x02;

/// Bit of the Carry flag in the status byte.
pub const FLAG_CARRY: u8 = 0x01;

/// The status flags of the 6502, one per bit of the status byte.
#[derive(Copy, Clone, PartialEq, Eq, Structural, Debug)]
pub enum Flags {
    Negative,
    Overflow,
    AlwaysOne,
    Break,
    Decimal,
    Int,
    Zero,
    Carry,
}

/// The single status-byte bit that a flag occupies.
pub open spec fn spec_flag_mask(flag: Flags) -> u8 {
    match flag {
        Flags::Negative => FLAG_NEGATIVE,
        Flags::Overflow => FLAG_OVERFLOW,
        Flags::AlwaysOne => FLAG_ALWAYS_ONE,
        Flags::Break => FLAG_BREAK,
        Flags::Decimal => FLAG_DECIMAL,
        Flags::Int => FLAG_INT,
        Flags::Zero => FLAG_ZERO,
        Flags::Carry => FLAG_CARRY,
    }
}

impl Flags {
    /// The flag's bit as a mask over the status byte.
    pub fn mask(self) -> (r: u8)
        ensures
            r == spec_flag_mask(self),
    {
        match self {
            Flags::Negative => FLAG_NEGATIVE,
            Flags::Overflow => FLAG_OVERFLOW,
            Flags::AlwaysOne => FLAG_ALWAYS_ONE,
            Flags::Break => FLAG_BREAK,
            Flags::Decimal => FLAG_DECIMAL,
            Flags::Int => FLAG_INT,
            Flags::Zero => FLAG_ZERO,
            Flags::Carry => FLAG_CARRY,
        }
    }
}

/// Whether a flag bit is set in a status byte.
pub open spec fn flag_set(flags: u8, mask: u8) -> bool {
    flags & mask != 0
}

/// A status byte with one bit forced to the given state and every other bit
/// untouched.
pub open spec fn spec_set_flag(flags: u8, mask: u8, status: bool) -> u8 {
    if status {
        flags | mask
    } else {
        flags & !mask
    }
}

/// The status byte after the accumulator is written: Zero tracks whether the
/// value is zero, Negative tracks its sign bit, in that order.
pub open spec fn spec_set_a_flags(flags: u8, value: u8) -> u8 {
    spec_set_flag(spec_set_flag(flags, FLAG_ZERO, value == 0), FLAG_NEGATIVE, value & 0x80 != 0)
}

/// The mathematical model of the register file.
#[verifier::ext_equal]
pub struct RegsView {
    pub a: u8,
    pub x: u8,
    pub y: u8,
    pub pc: int,
    pub flags: u8,
}

/// The register file after the accumulator setter ran.
pub open spec fn spec_set_a(r: RegsView, value: u8) -> RegsView {
    RegsView { a: value, flags: spec_set_a_flags(r.flags, value), ..r }
}

/// The register file after the 9-bit add into the accumulator: Carry records
/// the overflow out of bit 7, the truncated sum goes through the accumulator
/// setter (no carry-in: the Carry flag is written, never read).
pub open spec fn spec_add_a(r: RegsView, n: u8) -> RegsView {
    let sum = r.a + n;
    let with_carry = RegsView { flags: spec_set_flag(r.flags, FLAG_CARRY, sum > 0xFF), ..r };
    spec_set_a(with_carry, (sum % 0x100) as u8)
}

/// How writing the accumulator drives the status bits: Zero and Negative
/// follow the value, and every other bit of the status byte is untouched.
pub proof fn lemma_set_a_flag_bits(flags: u8, value: u8)
    ensures
        flag_set(spec_set_a_flags(flags, value), FLAG_ZERO) == (value == 0),
        flag_set(spec_set_a_flags(flags, value), FLAG_NEGATIVE) == (value >= 0x80),
        spec_set_a_flags(flags, value) & !(FLAG_ZERO | FLAG_NEGATIVE) == flags & !(FLAG_ZERO
            | FLAG_NEGATIVE),
        flag_set(spec_set_a_flags(flags, value), FLAG_CARRY) == flag_set(flags, FLAG_CARRY),
{
    assert(flag_set(spec_set_a_flags(flags, value), FLAG_ZERO) == (value == 0) && flag_set(
        spec_set_a_flags(flags, value),
        FLAG_NEGATIVE,
    ) == (value >= 0x80) && spec_set_a_flags(flags, value) & !(FLAG_ZERO | FLAG_NEGATIVE) == flags
        & !(FLAG_ZERO | FLAG_NEGATIVE) && flag_set(spec_set_a_flags(flags, value), FLAG_CARRY)
        == flag_set(flags, FLAG_CARRY)) by (bit_vector);
}

/// Setting one flag reads back as set, clearing it reads back as clear, and no
/// other bit of the status byte moves.
pub proof fn lemma_set_flag_bits(flags: u8, flag: Flags, status: bool, other: Flags)
    ensures
        flag_set(spec_set_flag(flags, spec_flag_mask(flag), status), spec_flag_mask(flag))
            == status,
        flag != other ==> flag_set(
            spec_set_flag(flags, spec_flag_mask(flag), status),
            spec_flag_mask(other),
        ) == flag_set(flags, spec_flag_mask(other)),
{
    let m = spec_flag_mask(flag);
    let o = spec_flag_mask(other);
    assert(flag_set(spec_set_flag(flags, m, status), m) == status) by (bit_vector)
        requires
            m == 0x80 || m == 0x40 || m == 0x20 || m == 0x10 || m == 0x08 || m == 0x04 || m == 0x02
                || m == 0x01,
    ;
    if flag != other {
        assert(m != o);
        assert(flag_set(spec_set_flag(flags, m, status), o) == flag_set(flags, o)) by (bit_vector)
            requires
                (m == 0x80 || m == 0x40 || m == 0x20 || m == 0x10 || m == 0x08 || m == 0x04 || m
                    == 0x02 || m == 0x01) && (o == 0x80 || o == 0x40 || o == 0x20 || o == 0x10 || o
                    == 0x08 || o == 0x04 || o == 0x02 || o == 0x01) && m != o,
        ;
    }
}

/// A full 64 KiB of zeroed bytes, as memory starts out.
pub fn zeroed_bytes() -> (r: Vec<u8>)
    ensures
        r@ == Seq::new(0x10000, |i: int| 0u8),
{
    let mut bytes: Vec<u8> = Vec::new();
    let mut i: usize = 0;
    while i < 0x10000
        invariant
            i <= 0x10000,
            bytes@ =~= Seq::new(i as nat, |j: int| 0u8),
        decreases 0x10000 - i,
    {
        bytes.push(0);
        i = i + 1;
    }
    proof {
        assert(bytes@ =~= Seq::new(0x10000, |i: int| 0u8));
    }
    bytes
}

/// The 64 KiB memory: exactly 65536 bytes, nothing mapped beyond the flat
/// array.
pub struct Ram(pub Vec<u8>);

impl View for Ram {
    type V = Seq<u8>;

    open spec fn view(&self) -> Seq<u8> {
        self.0@
    }
}

impl Ram {
    /// A `Ram` is well-formed when it holds the full 64 KiB.
    pub open spec fn wf(&self) -> bool {
        self@.len() == 0x10000
    }

    /// Fresh, zero-initialized memory.
    pub fn new() -> (r: Self)
        ensures
            r.wf(),
            r@ == Seq::new(0x10000, |i: int| 0u8),
    {
        Ram(zeroed_bytes())
    }

    /// Replace the whole memory with a program image.
    pub fn load(&mut self, code: Vec<u8>)
        requires
            code@.len() == 0x10000,
        ensures
            final(self).wf(),
            final(self)@ == code@,
    {
        self.0 = code;
    }

    /// The byte at an address.
    pub fn read(&self, addr: Address) -> (r: u8)
        requires
            self.wf(),
            addr.wf(),
        ensures
            r == self@[addr@],
    {
        self.0[addr.to_usize()]
    }

    /// The byte at a plain index.
    pub fn read_at(&self, idx: usize) -> (r: u8)
        requires
            self.wf(),
            idx < 0x10000,
        ensures
            r == self@[idx as int],
    {
        self.0[idx]
    }

    /// Store a byte at an address.
    pub fn write(&mut self, addr: Address, value: u8)
        requires
            old(self).wf(),
            addr.wf(),
        ensures
            final(self).wf(),
            final(self)@ == old(self)@.update(addr@, value),
    {
        self.0.set(addr.to_usize(), value);
    }

    /// A copy of the bytes in `[start, end)`.
    pub fn read_range(&self, start: usize, end: usize) -> (r: Vec<u8>)
        requires
            self.wf(),
            start <= end <= 0x10000,
        ensures
            r@ == self@.subrange(start as int, end as int),
    {
        let mut out: Vec<u8> = Vec::new();
        let mut i: usize = start;
        while i < end
            invariant
                start <= i <= end <= self@.len(),
                out@ =~= self@.subrange(start as int, i as int),
            decreases end - i,
        {
            out.push(self.0[i]);
            i = i + 1;
        }
        proof {
            assert(out@ =~= self@.subrange(start as int, end as int));
        }
        out
    }
}

/// The register file: accumulator, X and Y index registers, program counter
/// and the status byte.
#[allow(non_snake_case)]
pub struct Registers {
    pub A: u8,
    pub X: u8,
    pub Y: u8,
    pub PC: Address,
    pub flags: u8,
}

impl View for Registers {
    type V = RegsView;

    open spec fn view(&self) -> RegsView {
        RegsView { a: self.A, x: self.X, y: self.Y, pc: self.PC@, flags: self.flags }
    }
}

/// The power-on register file: registers cleared, program counter zero, only
/// the fixed bit 5 of the status byte set.
pub open spec fn spec_default_regs() -> RegsView {
    RegsView { a: 0, x: 0, y: 0, pc: 0, flags: FLAG_ALWAYS_ONE }
}

impl Registers {
    /// A register file is well-formed when its program counter is a valid
    /// address.
    pub open spec fn wf(&self) -> bool {
        self.PC.wf()
    }

    /// Whether a status flag is set.
    pub fn test(&self, flag: Flags) -> (r: bool)
        ensures
            r == flag_set(self@.flags, spec_flag_mask(flag)),
    {
        (self.flags & flag.mask()) != 0
    }

    /// Set or clear exactly one status flag, leaving the others untouched.
    pub fn set_flag(&mut self, flag: Flags, status: bool)
        ensures
            final(self)@ == (RegsView {
                flags: spec_set_flag(old(self)@.flags, spec_flag_mask(flag), status),
                ..old(self)@
            }),
            final(self).wf() == old(self).wf(),
    {
        if status {
            self.flags = self.flags | flag.mask();
        } else {
            self.flags = self.flags & !flag.mask();
        }
    }

    /// 9-bit addition of accumulator and operand: Carry is set to the overflow
    /// out of bit 7 (carry-out only; the Carry flag is never read), and the
    /// truncated sum is written through `set_a`.
    pub fn add_a(&mut self, n: u8)
        ensures
            final(self)@ == spec_add_a(old(self)@, n),
            final(self).wf() == old(self).wf(),
            final(self)@.a == (old(self)@.a + n) % 0x100,
            flag_set(final(self)@.flags, FLAG_CARRY) == (old(self)@.a + n > 0xFF),
    {
        let n16 = n as u16;
        let a16 = self.A as u16;
        let res = n16 + a16;
        if res > 0xFF {
            self.set_flag(Flags::Carry, true);
        } else {
            self.set_flag(Flags::Carry, false);
        }
        self.set_a((res % 0x100) as u8);
        proof {
            lemma_set_a_flag_bits(
                spec_set_flag(old(self)@.flags, FLAG_CARRY, old(self)@.a + n > 0xFF),
                (res % 0x100) as u8,
            );
            lemma_set_flag_bits(old(self)@.flags, Flags::Carry, old(self)@.a + n > 0xFF, Flags::Carry);
        }
    }

    /// Write the accumulator, recomputing Zero from the value and Negative
    /// from its sign bit.
    pub fn set_a(&mut self, value: u8)
        ensures
            final(self)@ == spec_set_a(old(self)@, value),
            final(self).wf() == old(self).wf(),
            final(self)@.a == value,
            flag_set(final(self)@.flags, FLAG_ZERO) == (value == 0),
            flag_set(final(self)@.flags, FLAG_NEGATIVE) == (value >= 0x80),
            flag_set(final(self)@.flags, FLAG_CARRY) == flag_set(old(self)@.flags, FLAG_CARRY),
    {
        self.set_flag(Flags::Zero, value == 0);
        self.set_flag(Flags::Negative, value & 0x80 != 0);
        self.A = value;
        proof {
            lemma_set_a_flag_bits(old(self)@.flags, value);
            assert((value & 0x80 != 0) == (value >= 0x80)) by (bit_vector);
        }
    }
}

impl Default for Registers {
    /// The power-on register file.
    fn default() -> (r: Self)
        ensures
            r.wf(),
            r@ == spec_default_regs(),
    {
        Registers { A: 0x00, X: 0x00, Y: 0x00, PC: Address(0x0000), flags: FLAG_ALWAYS_ONE }
    }
}

} // verus!
