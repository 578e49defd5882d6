//! The mathematical model of the machine and of one execution step: the state
//! as cycle counter, memory contents and register file, and a step function
//! over that state. The execution engines are proved against this model; it
//! returns `None` exactly where a step would be a programming-error failure
//! (an address computation leaving the 16-bit space), which the engines
//! exclude by precondition.

use vstd::prelude::*;

use crate::addressing_modes::AddressingMode;
use crate::components::{
    flag_set, spec_add_a, spec_default_regs, spec_set_a, RegsView, FLAG_BREAK, FLAG_ZERO,
};
use crate::opcodes::{spec_opcode, Opcode, OpcodeType};

verus! {

/// The whole machine as a mathematical value.
#[verifier::ext_equal]
pub struct SysView {
    pub cycles: nat,
    pub ram: Seq<u8>,
    pub regs: RegsView,
}

/// A machine state is well-formed when its memory holds the full 64 KiB and
/// its program counter lies in the 16-bit range.
pub open spec fn view_wf(s: SysView) -> bool {
    s.ram.len() == 0x10000 && 0 <= s.regs.pc < 0x10000
}

/// The failures a step can report. Unknown opcodes are data-dependent and
/// recoverable; `Break` is the deliberate halt; the two addressing-mode
/// failures flag an instruction the engine cannot execute.
#[derive(Copy, Clone, PartialEq, Eq, Structural, Debug)]
pub enum StepError {
    UnknownOpcode(u8),
    Break,
    InvalidAddressingMode,
    UnimplementedAddressingMode,
}

/// The 16-bit start address stored little-endian at `0xFFFC`/`0xFFFD`.
pub open spec fn spec_reset_vector(ram: Seq<u8>) -> int {
    ram[0xFFFD] * 0x100 + ram[0xFFFC]
}

/// The same state with the program counter replaced.
pub open spec fn with_pc(s: SysView, pc: int) -> SysView {
    SysView { regs: RegsView { pc, ..s.regs }, ..s }
}

/// The state a step actually decodes from: on the very first step (cycle
/// counter still 0) the program counter is loaded from the reset vector
/// first; afterwards the state is taken as it is.
pub open spec fn spec_started(s: SysView) -> SysView {
    if s.cycles == 0 {
        with_pc(s, spec_reset_vector(s.ram))
    } else {
        s
    }
}

/// The machine after `restart`: cycle counter zero, memory cleared, registers
/// at their defaults. No program is reloaded.
pub open spec fn spec_restarted() -> SysView {
    SysView { cycles: 0, ram: Seq::new(0x10000, |i: int| 0u8), regs: spec_default_regs() }
}

/// What operand resolution produces for one addressing mode.
pub enum SpecOperand {
    /// The mode carries no operand (implied, accumulator).
    NoArg,
    /// A resolved 16-bit value: a literal byte, a target address, or a branch
    /// target, depending on the mode.
    Arg(int),
    /// Resolution would read past `0xFFFF`: a programming-error failure.
    OutOfBounds,
    /// A mode the engine does not implement.
    Unsupported,
}

/// The branch target of a relative operand: the signed 8-bit offset is added
/// to the pre-increment program counter, modulo the 16-bit space.
pub open spec fn spec_branch_target(pc: int, off: u8) -> int {
    if off < 0x80 {
        (pc + off) % 0x10000
    } else {
        (pc + off + 0xFF00) % 0x10000
    }
}

/// Operand resolution. `pc` is the address of the opcode byte; `x` is the X
/// index register. The zero-page pointer arithmetic of the indexed-indirect
/// mode wraps within page zero and never carries out of it.
pub open spec fn spec_resolve(ram: Seq<u8>, pc: int, x: u8, mode: AddressingMode) -> SpecOperand {
    match mode {
        AddressingMode::IMPL => SpecOperand::NoArg,
        AddressingMode::A => SpecOperand::NoArg,
        AddressingMode::IMM => if pc + 1 < 0x10000 {
            SpecOperand::Arg(ram[pc + 1] as int)
        } else {
            SpecOperand::OutOfBounds
        },
        AddressingMode::ABS => if pc + 2 < 0x10000 {
            SpecOperand::Arg(ram[pc + 2] * 0x100 + ram[pc + 1])
        } else {
            SpecOperand::OutOfBounds
        },
        AddressingMode::ZPG => if pc + 1 < 0x10000 {
            SpecOperand::Arg(ram[pc + 1] as int)
        } else {
            SpecOperand::OutOfBounds
        },
        AddressingMode::INDX => if pc + 1 < 0x10000 {
            let zp = (ram[pc + 1] + x) % 0x100;
            SpecOperand::Arg(ram[(zp + 1) % 0x100] * 0x100 + ram[zp])
        } else {
            SpecOperand::OutOfBounds
        },
        AddressingMode::REL => if pc + 1 < 0x10000 {
            SpecOperand::Arg(spec_branch_target(pc, ram[pc + 1]))
        } else {
            SpecOperand::OutOfBounds
        },
        _ => SpecOperand::Unsupported,
    }
}

/// A state with the instruction's work done and the cycle counter ticked.
pub open spec fn spec_finish(s: SysView, new_pc: int) -> SysView {
    SysView { cycles: s.cycles + 1, regs: RegsView { pc: new_pc, ..s.regs }, ..s }
}

/// The default program-counter advance past the instruction, by the
/// operand-size of its addressing mode; leaving the 16-bit space is a
/// programming-error failure.
pub open spec fn spec_advance(s: SysView, size: int) -> Option<(SysView, Option<StepError>)> {
    if s.regs.pc + size <= 0xFFFF {
        Some((spec_finish(s, s.regs.pc + size), None))
    } else {
        None
    }
}

/// Dispatch on the mnemonic and addressing mode, given the resolved operand.
/// Any pairing outside the implemented set is an invalid-addressing-mode
/// failure; `BRK` signals `Break` with the state left intact.
pub open spec fn spec_dispatch(s: SysView, op: Opcode, arg: Option<int>) -> Option<
    (SysView, Option<StepError>),
> {
    match (op.name, op.addr_mode, arg) {
        (OpcodeType::BRK, _, _) => Some((s, Some(StepError::Break))),
        (OpcodeType::NOP, AddressingMode::IMPL, _) => spec_advance(s, 1),
        (OpcodeType::LDA, AddressingMode::IMM, Some(v)) => spec_advance(
            SysView { regs: spec_set_a(s.regs, v as u8), ..s },
            2,
        ),
        (OpcodeType::LDA, AddressingMode::ABS, Some(v)) => spec_advance(
            SysView { regs: spec_set_a(s.regs, s.ram[v]), ..s },
            3,
        ),
        (OpcodeType::LDA, AddressingMode::ZPG, Some(v)) => spec_advance(
            SysView { regs: spec_set_a(s.regs, s.ram[v]), ..s },
            2,
        ),
        (OpcodeType::STA, AddressingMode::ABS, Some(v)) => spec_advance(
            SysView { ram: s.ram.update(v, s.regs.a), ..s },
            3,
        ),
        (OpcodeType::STA, AddressingMode::ZPG, Some(v)) => spec_advance(
            SysView { ram: s.ram.update(v, s.regs.a), ..s },
            2,
        ),
        (OpcodeType::STA, AddressingMode::INDX, Some(v)) => spec_advance(
            SysView { ram: s.ram.update(v, s.regs.a), ..s },
            2,
        ),
        (OpcodeType::ADC, AddressingMode::IMM, Some(v)) => spec_advance(
            SysView { regs: spec_add_a(s.regs, v as u8), ..s },
            2,
        ),
        (OpcodeType::JMP, AddressingMode::ABS, Some(v)) => Some((spec_finish(s, v), None)),
        (OpcodeType::BEQ, AddressingMode::REL, Some(v)) => if flag_set(s.regs.flags, FLAG_ZERO) {
            Some((spec_finish(s, v), None))
        } else {
            spec_advance(s, 2)
        },
        (OpcodeType::BNE, AddressingMode::REL, Some(v)) => if !flag_set(
            s.regs.flags,
            FLAG_ZERO,
        ) {
            Some((spec_finish(s, v), None))
        } else {
            spec_advance(s, 2)
        },
        _ => Some((s, Some(StepError::InvalidAddressingMode))),
    }
}

/// One whole step: the implicit first-step initialization, the fetch of the
/// opcode byte, the table lookup, operand resolution, dispatch, the default
/// advance and the cycle-counter tick. With `halt_on_break_flag` the step
/// refuses to run while the Break flag is set, as the earlier engine
/// generation did. `None` marks the programming-error failures that the
/// engines exclude by precondition.
pub open spec fn spec_step(s: SysView, halt_on_break_flag: bool) -> Option<
    (SysView, Option<StepError>),
> {
    let s1 = spec_started(s);
    if halt_on_break_flag && flag_set(s1.regs.flags, FLAG_BREAK) {
        Some((s1, Some(StepError::Break)))
    } else {
        let code = s1.ram[s1.regs.pc];
        match spec_opcode(code) {
            None => Some((s1, Some(StepError::UnknownOpcode(code)))),
            Some(op) => match spec_resolve(s1.ram, s1.regs.pc, s1.regs.x, op.addr_mode) {
                SpecOperand::OutOfBounds => None,
                SpecOperand::Unsupported => Some(
                    (s1, Some(StepError::UnimplementedAddressingMode)),
                ),
                SpecOperand::NoArg => spec_dispatch(s1, op, None),
                SpecOperand::Arg(v) => spec_dispatch(s1, op, Some(v)),
            },
        }
    }
}

/// Law: a byte with no opcode-table entry yields the unknown-opcode failure
/// and leaves the whole state - program counter and cycle counter included -
/// unchanged.
pub proof fn lemma_unknown_opcode_leaves_state(s: SysView, halt_on_break_flag: bool)
    requires
        view_wf(s),
        s.cycles > 0,
        !(halt_on_break_flag && flag_set(s.regs.flags, FLAG_BREAK)),
        spec_opcode(s.ram[s.regs.pc]) is None,
    ensures
        spec_step(s, halt_on_break_flag) == Some(
            (s, Some(StepError::UnknownOpcode(s.ram[s.regs.pc]))),
        ),
{
}

/// Law: a taken `BEQ` with a relative operand encoding -2 moves the program
/// counter to (pre-step program counter - 2) modulo the 16-bit space, with
/// the default size-based advance suppressed and only the cycle counter
/// ticked besides.
pub proof fn lemma_beq_taken_back_two(s: SysView)
    requires
        view_wf(s),
        s.cycles > 0,
        s.regs.pc + 1 < 0x10000,
        s.ram[s.regs.pc] == 0xF0,
        s.ram[s.regs.pc + 1] == 0xFE,
        flag_set(s.regs.flags, FLAG_ZERO),
    ensures
        spec_step(s, false) == Some(
            (spec_finish(s, (s.regs.pc - 2 + 0x10000) % 0x10000), None::<StepError>),
        ),
{
    assert(spec_opcode(0xF0) == Some(
        Opcode { name: OpcodeType::BEQ, addr_mode: AddressingMode::REL },
    ));
    assert((s.regs.pc + 0xFE + 0xFF00) % 0x10000 == (s.regs.pc - 2 + 0x10000) % 0x10000) by {
        vstd::arithmetic::div_mod::lemma_mod_add_multiples_vanish(
            s.regs.pc - 2 + 0x10000,
            0x10000,
        );
    };
}

/// Law: a `BEQ` that is not taken (Zero flag clear) leaves every register but
/// the program counter alone and advances the program counter by the relative
/// mode's size of 2.
pub proof fn lemma_beq_not_taken_advances(s: SysView)
    requires
        view_wf(s),
        s.cycles > 0,
        s.regs.pc + 2 <= 0xFFFF,
        s.ram[s.regs.pc] == 0xF0,
        !flag_set(s.regs.flags, FLAG_ZERO),
    ensures
        spec_step(s, false) == Some((spec_finish(s, s.regs.pc + 2), None::<StepError>)),
{
    assert(spec_opcode(0xF0) == Some(
        Opcode { name: OpcodeType::BEQ, addr_mode: AddressingMode::REL },
    ));
}

/// Law: a step taken with the cycle counter at 0 behaves exactly as a step
/// taken after the program counter was loaded from the reset vector - the
/// reset-vector initialization is re-triggered by a fresh first step, as
/// after `restart`.
pub proof fn lemma_fresh_step_uses_reset_vector(s: SysView, halt_on_break_flag: bool)
    requires
        s.cycles == 0,
    ensures
        spec_step(s, halt_on_break_flag) == spec_step(
            with_pc(s, spec_reset_vector(s.ram)),
            halt_on_break_flag,
        ),
{
    assert(spec_started(s) =~= spec_started(with_pc(s, spec_reset_vector(s.ram))));
}

} // verus!
