//! The first generation of the execution engine: no status flags, the
//! program counter starts at `0x0600` instead of going through the reset
//! vector, accumulator loads write the register directly, the add into the
//! accumulator wraps without a carry flag, stores support only the absolute
//! mode, and the cycle counter is never advanced by a step. It is kept,
//! verified against its own step model, beside the full engine in `system`.

use vstd::prelude::*;

use crate::addressing_modes::{get_size, spec_size, AddressingMode};
use crate::components::{zeroed_bytes, RegsView};
use crate::error::{spec_cpu_result, CpuError};
use crate::opcodes::{from_code, Opcode, OpcodeType};
use crate::semantics::{with_pc, SpecOperand, StepError, SysView};

verus! {

/// The registers of the first-generation engine: no status byte at all.
#[allow(non_snake_case)]
pub struct Cpu {
    pub A: u8,
    pub X: u8,
    pub Y: u8,
    pub PC: u16,
}

impl View for Cpu {
    type V = RegsView;

    open spec fn view(&self) -> RegsView {
        RegsView { a: self.A, x: self.X, y: self.Y, pc: self.PC as int, flags: 0 }
    }
}

/// The power-on registers of this generation: cleared, with the program
/// counter already at the conventional `0x0600` program start.
pub open spec fn spec_basic_default_regs() -> RegsView {
    RegsView { a: 0, x: 0, y: 0, pc: 0x0600, flags: 0 }
}

impl Default for Cpu {
    /// The power-on registers of this generation.
    fn default() -> (r: Self)
        ensures
            r@ == spec_basic_default_regs(),
    {
        Cpu { A: 0x00, X: 0x00, Y: 0x00, PC: 0x0600 }
    }
}

/// Operand resolution of this generation: only the no-operand modes, the
/// immediate byte, the absolute little-endian address and the zero-page byte.
pub open spec fn spec_basic_resolve(ram: Seq<u8>, pc: int, mode: AddressingMode) -> SpecOperand {
    match mode {
        AddressingMode::IMPL => SpecOperand::NoArg,
        AddressingMode::A => SpecOperand::NoArg,
        AddressingMode::IMM => if pc + 1 < 0x10000 {
            SpecOperand::Arg(ram[pc + 1] as int)
        } else {
            SpecOperand::OutOfBounds
        },
        AddressingMode::ABS => if pc + 2 < 0x10000 {
            SpecOperand::Arg(ram[pc + 2] * 0x100 + ram[pc + 1])
        } else {
            SpecOperand::OutOfBounds
        },
        AddressingMode::ZPG => if pc + 1 < 0x10000 {
            SpecOperand::Arg(ram[pc + 1] as int)
        } else {
            SpecOperand::OutOfBounds
        },
        _ => SpecOperand::Unsupported,
    }
}

/// The advance past the instruction; the cycle counter of this generation
/// never moves.
pub open spec fn spec_basic_advance(s: SysView, size: int) -> Option<
    (SysView, Option<StepError>),
> {
    if s.regs.pc + size <= 0xFFFF {
        Some((with_pc(s, s.regs.pc + size), None))
    } else {
        None
    }
}

/// Dispatch of this generation: `BRK` halts, loads write the accumulator
/// directly (no flags exist), the add wraps without a carry, only absolute
/// stores and absolute jumps are implemented.
pub open spec fn spec_basic_dispatch(s: SysView, op: Opcode, arg: Option<int>) -> Option<
    (SysView, Option<StepError>),
> {
    match (op.name, op.addr_mode, arg) {
        (OpcodeType::BRK, _, _) => Some((s, Some(StepError::Break))),
        (OpcodeType::LDA, AddressingMode::IMM, Some(v)) => spec_basic_advance(
            SysView { regs: RegsView { a: v as u8, ..s.regs }, ..s },
            2,
        ),
        (OpcodeType::LDA, AddressingMode::ABS, Some(v)) => spec_basic_advance(
            SysView { regs: RegsView { a: s.ram[v], ..s.regs }, ..s },
            3,
        ),
        (OpcodeType::LDA, AddressingMode::ZPG, Some(v)) => spec_basic_advance(
            SysView { regs: RegsView { a: s.ram[v], ..s.regs }, ..s },
            2,
        ),
        (OpcodeType::STA, AddressingMode::ABS, Some(v)) => spec_basic_advance(
            SysView { ram: s.ram.update(v, s.regs.a), ..s },
            3,
        ),
        (OpcodeType::ADC, AddressingMode::IMM, Some(v)) => spec_basic_advance(
            SysView { regs: RegsView { a: ((s.regs.a + v) % 0x100) as u8, ..s.regs }, ..s },
            2,
        ),
        (OpcodeType::JMP, AddressingMode::ABS, Some(v)) => Some((with_pc(s, v), None)),
        _ => Some((s, Some(StepError::InvalidAddressingMode))),
    }
}

/// One step of this generation: no implicit initialization, no Break-flag
/// check, no cycle counting - fetch at the program counter, decode, resolve,
/// dispatch, advance unless a jump replaced the program counter.
pub open spec fn spec_basic_step(s: SysView) -> Option<(SysView, Option<StepError>)> {
    let code = s.ram[s.regs.pc];
    match crate::opcodes::spec_opcode(code) {
        None => Some((s, Some(StepError::UnknownOpcode(code)))),
        Some(op) => match spec_basic_resolve(s.ram, s.regs.pc, op.addr_mode) {
            SpecOperand::OutOfBounds => None,
            SpecOperand::Unsupported => Some((s, Some(StepError::UnimplementedAddressingMode))),
            SpecOperand::NoArg => spec_basic_dispatch(s, op, None),
            SpecOperand::Arg(v) => spec_basic_dispatch(s, op, Some(v)),
        },
    }
}

/// The first-generation machine: cycle counter (never advanced by a step),
/// 64 KiB of memory, and the flagless registers.
pub struct Emulator {
    pub cycles: usize,
    pub ram: Vec<u8>,
    pub cpu: Cpu,
}

impl View for Emulator {
    type V = SysView;

    open spec fn view(&self) -> SysView {
        SysView { cycles: self.cycles as nat, ram: self.ram@, regs: self.cpu@ }
    }
}

impl Emulator {
    /// The machine is well-formed when its memory holds the full 64 KiB.
    pub open spec fn wf(&self) -> bool {
        self.ram@.len() == 0x10000
    }

    /// A fresh machine: memory cleared, registers at this generation's
    /// defaults.
    pub fn new() -> (r: Self)
        ensures
            r.wf(),
            r@ == (SysView {
                cycles: 0,
                ram: Seq::new(0x10000, |i: int| 0u8),
                regs: spec_basic_default_regs(),
            }),
    {
        let r = Emulator { cycles: 0, ram: zeroed_bytes(), cpu: Cpu::default() };
        proof {
            assert(r@ =~= (SysView {
                cycles: 0,
                ram: Seq::new(0x10000, |i: int| 0u8),
                regs: spec_basic_default_regs(),
            }));
        }
        r
    }

    /// One step, exactly as this generation's step model states it.
    pub fn step(&mut self) -> (r: Result<(), CpuError>)
        requires
            old(self).wf(),
            spec_basic_step(old(self)@) is Some,
        ensures
            final(self).wf(),
            spec_basic_step(old(self)@) == Some((final(self)@, spec_cpu_result(r))),
    {
        let pc: usize = self.cpu.PC as usize;
        let code: u8 = self.ram[pc];
        let op: Opcode = match from_code(code) {
            None => {
                return Err(CpuError::UnknownOp(code));
            },
            Some(op) => op,
        };
        let arg: Option<u16> = match op.addr_mode {
            AddressingMode::IMPL => None,
            AddressingMode::A => None,
            AddressingMode::IMM => {
                proof {
                    assert(pc + 1 < 0x10000);
                }
                Some(self.ram[pc + 1] as u16)
            },
            AddressingMode::ABS => {
                proof {
                    assert(pc + 2 < 0x10000);
                }
                let lo = self.ram[pc + 1] as u16;
                let hi = self.ram[pc + 2] as u16;
                Some(hi * 0x100 + lo)
            },
            AddressingMode::ZPG => {
                proof {
                    assert(pc + 1 < 0x10000);
                }
                Some(self.ram[pc + 1] as u16)
            },
            _ => {
                return Err(CpuError::UnimplementedAddressingMode);
            },
        };
        let mut jumped = false;
        match (op.name, op.addr_mode, arg) {
            (OpcodeType::BRK, _, _) => {
                return Err(CpuError::Break);
            },
            (OpcodeType::LDA, AddressingMode::IMM, Some(v)) => {
                self.cpu.A = v as u8;
            },
            (OpcodeType::LDA, AddressingMode::ABS, Some(v)) => {
                self.cpu.A = self.ram[v as usize];
            },
            (OpcodeType::LDA, AddressingMode::ZPG, Some(v)) => {
                self.cpu.A = self.ram[v as usize];
            },
            (OpcodeType::STA, AddressingMode::ABS, Some(v)) => {
                let a = self.cpu.A;
                self.ram.set(v as usize, a);
            },
            (OpcodeType::ADC, AddressingMode::IMM, Some(v)) => {
                self.cpu.A = ((self.cpu.A as u16 + v) % 0x100) as u8;
            },
            (OpcodeType::JMP, AddressingMode::ABS, Some(v)) => {
                self.cpu.PC = v;
                jumped = true;
            },
            _ => {
                return Err(CpuError::InvalidAddressingMode);
            },
        }
        if !jumped {
            proof {
                assert(pc + spec_size(op.addr_mode) <= 0xFFFF);
            }
            let size = get_size(op.addr_mode);
            self.cpu.PC = (pc + size) as u16;
        }
        proof {
            assert(Some((self@, spec_cpu_result(Ok::<(), CpuError>(())))) =~= spec_basic_step(
                old(self)@,
            ));
        }
        Ok(())
    }

    /// Reinitialize: cycle counter zero, memory cleared, registers at this
    /// generation's defaults. No program is reloaded.
    pub fn restart(&mut self)
        ensures
            final(self).wf(),
            final(self)@ == (SysView {
                cycles: 0,
                ram: Seq::new(0x10000, |i: int| 0u8),
                regs: spec_basic_default_regs(),
            }),
    {
        self.cycles = 0;
        self.ram = zeroed_bytes();
        self.cpu = Cpu::default();
        proof {
            assert(self@ =~= (SysView {
                cycles: 0,
                ram: Seq::new(0x10000, |i: int| 0u8),
                regs: spec_basic_default_regs(),
            }));
        }
    }
}

} // verus!
