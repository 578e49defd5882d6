//! The validated 16-bit address type, the addressing modes of the 6502, and
//! the operand-size table that maps a mode to the byte length of the
//! instruction that uses it.

use vstd::prelude::*;

verus! {

/// A 16-bit address: an integer in `[0x0000, 0xFFFF]`. Construction keeps the
/// value in range, so memory access through an `Address` is always in bounds.
#[derive(Copy, Clone, PartialEq, Eq, Structural, PartialOrd, Debug)]
pub struct Address(pub usize);

impl View for Address {
    type V = int;

    open spec fn view(&self) -> int {
        self.0 as int
    }
}

/// The value an `Address` holds after `same_page_add`: the high byte is kept,
/// the low byte wraps within its 256-byte page.
pub open spec fn spec_same_page_add(a: int, rhs: int) -> int {
    (a / 0x100) * 0x100 + (a + rhs) % 0x100
}

impl Address {
    /// An `Address` is well-formed when it lies in the 16-bit range.
    pub open spec fn wf(&self) -> bool {
        0 <= self.0 <= 0xFFFF
    }

    /// Validating constructor: out-of-range values are a programming error and
    /// are excluded up front.
    pub fn new(v: usize) -> (r: Self)
        requires
            v <= 0xFFFF,
        ensures
            r.wf(),
            r@ == v,
    {
        Address(v)
    }

    /// Construction from a 16-bit integer never needs validation.
    pub fn from_u16(v: u16) -> (r: Self)
        ensures
            r.wf(),
            r@ == v,
    {
        Address(v as usize)
    }

    /// The address back as a 16-bit integer.
    pub fn to_u16(&self) -> (r: u16)
        requires
            self.wf(),
        ensures
            r == self@,
    {
        self.0 as u16
    }

    /// The address back as a `usize`.
    pub fn to_usize(&self) -> (r: usize)
        requires
            self.wf(),
        ensures
            r == self@,
    {
        self.0
    }

    /// Ordinary addition; exceeding `0xFFFF` is a programming error and is
    /// excluded up front.
    pub fn add(self, rhs: usize) -> (r: Self)
        requires
            self.wf(),
            self@ + rhs <= 0xFFFF,
        ensures
            r.wf(),
            r@ == self@ + rhs,
    {
        Address(self.0 + rhs)
    }

    /// Addition that carries only within the low byte: the high byte of the
    /// address never changes. This reproduces the hardware's page-boundary
    /// wraparound when the second byte of a zero-page pointer is fetched.
    pub fn same_page_add(self, rhs: usize) -> (r: Self)
        requires
            self.wf(),
        ensures
            r.wf(),
            r@ == spec_same_page_add(self@, rhs as int),
            r@ / 0x100 == self@ / 0x100,
            r@ % 0x100 == (self@ + rhs) % 0x100,
    {
        let rhs_low: usize = rhs % 0x100;
        let hi: usize = (self.0 / 0x100) * 0x100;
        let lo: usize = (self.0 + rhs_low) % 0x100;
        proof {
            lemma_same_page_add_parts(self@, rhs as int);
            assert((self@ + (rhs as int) % 0x100) % 0x100 == (self@ + rhs) % 0x100) by {
                vstd::arithmetic::div_mod::lemma_add_mod_noop(
                    self@,
                    (rhs as int) % 0x100,
                    0x100,
                );
                vstd::arithmetic::div_mod::lemma_add_mod_noop(self@, rhs as int, 0x100);
                vstd::arithmetic::div_mod::lemma_mod_twice(rhs as int, 0x100);
            };
        }
        Address(hi + lo)
    }

    /// The next address; running past `0xFFFF` is a programming error and is
    /// excluded up front.
    pub fn next(&self) -> (r: Self)
        requires
            self.wf(),
            self@ < 0xFFFF,
        ensures
            r.wf(),
            r@ == self@ + 1,
    {
        Address(self.0 + 1)
    }
}

/// Law: constructing an `Address` from any valid 16-bit integer and reading it
/// back round-trips exactly.
pub proof fn lemma_address_roundtrip(v: usize)
    requires
        v <= 0xFFFF,
    ensures
        Address(v).wf(),
        Address(v)@ == v,
{
}

/// Law: `same_page_add` never changes the high byte of the address, whatever
/// the offset; the low byte wraps within the page.
pub proof fn lemma_same_page_add_keeps_high(a: int, rhs: int)
    requires
        0 <= a <= 0xFFFF,
        0 <= rhs,
    ensures
        spec_same_page_add(a, rhs) / 0x100 == a / 0x100,
        spec_same_page_add(a, rhs) % 0x100 == (a + rhs) % 0x100,
        0 <= spec_same_page_add(a, rhs) <= 0xFFFF,
{
    lemma_same_page_add_parts(a, rhs);
}

proof fn lemma_same_page_add_parts(a: int, rhs: int)
    requires
        0 <= a <= 0xFFFF,
        0 <= rhs,
    ensures
        spec_same_page_add(a, rhs) / 0x100 == a / 0x100,
        spec_same_page_add(a, rhs) % 0x100 == (a + rhs) % 0x100,
        0 <= spec_same_page_add(a, rhs) <= 0xFFFF,
{
    let hi = a / 0x100;
    let lo = (a + rhs) % 0x100;
    vstd::arithmetic::div_mod::lemma_mod_bound(a + rhs, 0x100);
    assert(0 <= hi <= 0xFF) by (nonlinear_arith)
        requires
            0 <= a <= 0xFFFF,
            hi == a / 0x100,
    ;
    vstd::arithmetic::div_mod::lemma_fundamental_div_mod_converse(hi * 0x100 + lo, 0x100, hi, lo);
    assert(0 <= hi * 0x100 + lo <= 0xFFFF) by (nonlinear_arith)
        requires
            0 <= hi <= 0xFF,
            0 <= lo < 0x100,
    ;
}

/// The thirteen addressing modes of the 6502. A mode says how the bytes after
/// an opcode are turned into a value or a target address.
#[derive(Copy, Clone, PartialEq, Eq, Structural, Debug)]
pub enum AddressingMode {
    /// Operate on the accumulator itself (`LSR A`).
    A,
    /// A 16-bit address follows (`LDA $1234`).
    ABS,
    /// A 16-bit address follows, indexed by X (`STA $3000,X`).
    ABSX,
    /// A 16-bit address follows, indexed by Y (`AND $4000,Y`).
    ABSY,
    /// The next byte is a literal value (`LDA #$10`).
    IMM,
    /// No operand at all (`CLC`).
    IMPL,
    /// A 16-bit address of a pointer follows (`JMP ($FFFC)`).
    IND,
    /// Zero-page pointer indexed by X before the dereference (`LDA ($40,X)`).
    INDX,
    /// Zero-page pointer dereferenced, then indexed by Y (`LDA ($40),Y`).
    INDY,
    /// The next byte is a signed offset from the program counter (`BEQ label`).
    REL,
    /// The next byte is an address within page zero (`LDA $10`).
    ZPG,
    /// Zero-page address indexed by X (`LDA $10,X`).
    ZPGX,
    /// Zero-page address indexed by Y (`LDA $10,Y`).
    ZPGY,
}

/// The operand-size table: the full byte length of an instruction, opcode
/// included, as a function of its addressing mode alone.
pub open spec fn spec_size(mode: AddressingMode) -> int {
    match mode {
        AddressingMode::A => 1,
        AddressingMode::IMPL => 1,
        AddressingMode::ABS => 3,
        AddressingMode::ABSX => 3,
        AddressingMode::ABSY => 3,
        AddressingMode::IND => 3,
        AddressingMode::IMM => 2,
        AddressingMode::INDX => 2,
        AddressingMode::INDY => 2,
        AddressingMode::REL => 2,
        AddressingMode::ZPG => 2,
        AddressingMode::ZPGX => 2,
        AddressingMode::ZPGY => 2,
    }
}

/// The byte length of an instruction with the given addressing mode.
pub fn get_size(addr_mode: AddressingMode) -> (r: usize)
    ensures
        r == spec_size(addr_mode),
        1 <= r <= 3,
{
    match addr_mode {
        AddressingMode::A => 1,
        AddressingMode::IMPL => 1,
        AddressingMode::ABS => 3,
        AddressingMode::ABSX => 3,
        AddressingMode::ABSY => 3,
        AddressingMode::IND => 3,
        AddressingMode::IMM => 2,
        AddressingMode::INDX => 2,
        AddressingMode::INDY => 2,
        AddressingMode::REL => 2,
        AddressingMode::ZPG => 2,
        AddressingMode::ZPGX => 2,
        AddressingMode::ZPGY => 2,
    }
}

} // verus!
