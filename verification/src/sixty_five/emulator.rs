//! The execution engine of this generation, proved against the shared
//! machine model with the Break-flag check switched on: a step taken while
//! the Break flag is set reports the halt without touching anything else.

use vstd::prelude::*;

use crate::addressing_modes::{get_size, spec_size, AddressingMode};
use crate::components::{flag_set, zeroed_bytes, FLAG_BREAK};
use crate::opcodes::{from_code, Opcode, OpcodeType};
use crate::semantics::{
    spec_reset_vector, spec_resolve, spec_restarted, spec_started, spec_step, with_pc, SpecOperand,
    SysView,
};
use crate::sixty_five::cpu::{Cpu, Flags};
use crate::sixty_five::error::{spec_emu_result, EmulatorError};

verus! {

/// The machine of this generation: cycle counter, 64 KiB of memory, and the
/// flag-bearing register file.
pub struct Emulator {
    pub cycles: usize,
    pub ram: Vec<u8>,
    pub cpu: Cpu,
}

impl View for Emulator {
    type V = SysView;

    open spec fn view(&self) -> SysView {
        SysView { cycles: self.cycles as nat, ram: self.ram@, regs: self.cpu@ }
    }
}

impl Emulator {
    /// The machine is well-formed when its memory holds the full 64 KiB.
    pub open spec fn wf(&self) -> bool {
        self.ram@.len() == 0x10000
    }

    /// A fresh machine: cycle counter zero, memory cleared, registers at
    /// their defaults.
    pub fn new() -> (r: Self)
        ensures
            r.wf(),
            r@ == spec_restarted(),
    {
        let r = Emulator { cycles: 0, ram: zeroed_bytes(), cpu: Cpu::default() };
        proof {
            assert(r@ =~= spec_restarted());
        }
        r
    }

    /// Reset-vector initialization: load the program counter from the 16-bit
    /// little-endian value at `0xFFFC`/`0xFFFD`. This never fails.
    pub fn init(&mut self) -> (r: Result<(), EmulatorError>)
        requires
            old(self).wf(),
        ensures
            final(self).wf(),
            final(self)@ == with_pc(old(self)@, spec_reset_vector(old(self)@.ram)),
            r is Ok,
    {
        let lo = self.ram[0xFFFC] as u16;
        let hi = self.ram[0xFFFD] as u16;
        self.cpu.PC = hi * 0x100 + lo;
        proof {
            assert(self@ =~= with_pc(old(self)@, spec_reset_vector(old(self)@.ram)));
        }
        Ok(())
    }

    /// One fetch-decode-execute step, exactly as the machine model with the
    /// Break-flag check states it: the first step initializes the program
    /// counter from the reset vector; a set Break flag or a `BRK` reports the
    /// halt with the state intact; an unknown opcode is reported with nothing
    /// changed; otherwise the instruction's effect is applied, the program
    /// counter advances unless a jump or taken branch replaced it, and the
    /// cycle counter ticks.
    pub fn step(&mut self) -> (r: Result<(), EmulatorError>)
        requires
            old(self).wf(),
            old(self).cycles < usize::MAX,
            spec_step(old(self)@, true) is Some,
        ensures
            final(self).wf(),
            spec_step(old(self)@, true) == Some((final(self)@, spec_emu_result(r))),
    {
        if self.cycles == 0 {
            let _ = self.init();
        }
        let ghost s1 = spec_started(old(self)@);
        proof {
            assert(self@ =~= s1);
        }
        if self.cpu.test(Flags::Break) {
            return Err(EmulatorError::Break);
        }
        let pc: usize = self.cpu.PC as usize;
        let code: u8 = self.ram[pc];
        let op: Opcode = match from_code(code) {
            None => {
                return Err(EmulatorError::UnknownOp(code));
            },
            Some(op) => op,
        };
        let arg: Option<u16> = match op.addr_mode {
            AddressingMode::IMPL => None,
            AddressingMode::A => None,
            AddressingMode::IMM => {
                proof {
                    assert(pc + 1 < 0x10000);
                }
                Some(self.ram[pc + 1] as u16)
            },
            AddressingMode::ABS => {
                proof {
                    assert(pc + 2 < 0x10000);
                }
                let lo = self.ram[pc + 1] as u16;
                let hi = self.ram[pc + 2] as u16;
                Some(hi * 0x100 + lo)
            },
            AddressingMode::ZPG => {
                proof {
                    assert(pc + 1 < 0x10000);
                }
                Some(self.ram[pc + 1] as u16)
            },
            AddressingMode::INDX => {
                proof {
                    assert(pc + 1 < 0x10000);
                }
                let operand = self.ram[pc + 1] as usize;
                let zp: usize = (operand + self.cpu.X as usize) % 0x100;
                let lo = self.ram[zp] as u16;
                let hi = self.ram[(zp + 1) % 0x100] as u16;
                Some(hi * 0x100 + lo)
            },
            AddressingMode::REL => {
                proof {
                    assert(pc + 1 < 0x10000);
                }
                let off = self.ram[pc + 1] as usize;
                let target: usize = if off < 0x80 {
                    (pc + off) % 0x10000
                } else {
                    (pc + off + 0xFF00) % 0x10000
                };
                Some(target as u16)
            },
            _ => {
                return Err(EmulatorError::UnimplementedAddressingMode);
            },
        };
        let ghost argv: Option<int> = match arg {
            Some(v) => Some(v as int),
            None => None,
        };
        proof {
            assert(spec_resolve(s1.ram, s1.regs.pc, s1.regs.x, op.addr_mode) == (match argv {
                Some(v) => SpecOperand::Arg(v),
                None => SpecOperand::NoArg,
            }));
        }
        let mut jumped = false;
        match (op.name, op.addr_mode, arg) {
            (OpcodeType::BRK, _, _) => {
                return Err(EmulatorError::Break);
            },
            (OpcodeType::NOP, AddressingMode::IMPL, _) => {},
            (OpcodeType::LDA, AddressingMode::IMM, Some(v)) => {
                self.cpu.set_a(v as u8);
            },
            (OpcodeType::LDA, AddressingMode::ABS, Some(v)) => {
                let b = self.ram[v as usize];
                self.cpu.set_a(b);
            },
            (OpcodeType::LDA, AddressingMode::ZPG, Some(v)) => {
                let b = self.ram[v as usize];
                self.cpu.set_a(b);
            },
            (OpcodeType::STA, AddressingMode::ABS, Some(v)) => {
                let a = self.cpu.A;
                self.ram.set(v as usize, a);
            },
            (OpcodeType::STA, AddressingMode::ZPG, Some(v)) => {
                let a = self.cpu.A;
                self.ram.set(v as usize, a);
            },
            (OpcodeType::STA, AddressingMode::INDX, Some(v)) => {
                let a = self.cpu.A;
                self.ram.set(v as usize, a);
            },
            (OpcodeType::ADC, AddressingMode::IMM, Some(v)) => {
                self.cpu.add_a(v as u8);
            },
            (OpcodeType::JMP, AddressingMode::ABS, Some(v)) => {
                self.cpu.PC = v;
                jumped = true;
            },
            (OpcodeType::BEQ, AddressingMode::REL, Some(v)) => {
                if self.cpu.test(Flags::Zero) {
                    self.cpu.PC = v;
                    jumped = true;
                }
            },
            (OpcodeType::BNE, AddressingMode::REL, Some(v)) => {
                if !self.cpu.test(Flags::Zero) {
                    self.cpu.PC = v;
                    jumped = true;
                }
            },
            _ => {
                return Err(EmulatorError::InvalidAddressingMode);
            },
        }
        if !jumped {
            proof {
                assert(pc + spec_size(op.addr_mode) <= 0xFFFF);
            }
            let size = get_size(op.addr_mode);
            self.cpu.PC = (pc + size) as u16;
        }
        self.cycles = self.cycles + 1;
        proof {
            assert(Some((self@, spec_emu_result(Ok::<(), EmulatorError>(())))) =~= spec_step(
                old(self)@,
                true,
            ));
        }
        Ok(())
    }

    /// Reinitialize the machine: cycle counter zero, memory cleared,
    /// registers at their defaults. The program is not reloaded.
    pub fn restart(&mut self)
        ensures
            final(self).wf(),
            final(self)@ == spec_restarted(),
    {
        self.cycles = 0;
        self.ram = zeroed_bytes();
        self.cpu = Cpu::default();
        proof {
            assert(self@ =~= spec_restarted());
        }
    }
}

} // verus!
