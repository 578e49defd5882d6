//! The execution engine: fetch, decode, operand resolution, dispatch,
//! program-counter advance and cycle counting, over the memory and the
//! register file it owns. Every behaviour is proved against the machine
//! model in `semantics`.

use vstd::prelude::*;

use crate::addressing_modes::{get_size, spec_size, Address, AddressingMode};
use crate::components::{Flags, Ram, Registers};
use crate::error::{spec_cpu_result, CpuError};
use crate::opcodes::{from_code, Opcode, OpcodeType};
use crate::semantics::{
    spec_reset_vector, spec_resolve, spec_restarted, spec_started, spec_step, with_pc, SpecOperand,
    SysView,
};

verus! {

/// The machine: cycle counter, 64 KiB of memory, and the register file.
pub struct System {
    pub cycles: usize,
    pub ram: Ram,
    pub registers: Registers,
}

impl View for System {
    type V = SysView;

    open spec fn view(&self) -> SysView {
        SysView { cycles: self.cycles as nat, ram: self.ram@, regs: self.registers@ }
    }
}

impl System {
    /// A machine is well-formed when its memory holds the full 64 KiB and its
    /// program counter is a valid address.
    pub open spec fn wf(&self) -> bool {
        self.ram.wf() && self.registers.wf()
    }

    /// A fresh machine: cycle counter zero, memory cleared, registers at
    /// their defaults.
    pub fn new() -> (r: Self)
        ensures
            r.wf(),
            r@ == spec_restarted(),
    {
        let r = System { cycles: 0, ram: Ram::new(), registers: Registers::default() };
        proof {
            assert(r@ =~= spec_restarted());
        }
        r
    }

    /// Reset-vector initialization: load the program counter from the 16-bit
    /// little-endian value at `0xFFFC`/`0xFFFD`. The high byte sits at the
    /// same-page successor of the vector address. This never fails.
    pub fn init(&mut self) -> (r: Result<(), CpuError>)
        requires
            old(self).wf(),
        ensures
            final(self).wf(),
            final(self)@ == with_pc(old(self)@, spec_reset_vector(old(self)@.ram)),
            r is Ok,
    {
        let vector = Address::new(0xFFFC);
        let lo = self.ram.read(vector) as usize;
        let hi = self.ram.read(vector.same_page_add(1)) as usize;
        self.registers.PC = Address::new(hi * 0x100 + lo);
        proof {
            assert(self@ =~= with_pc(old(self)@, spec_reset_vector(old(self)@.ram)));
        }
        Ok(())
    }

    /// One fetch-decode-execute step, exactly as the machine model states it:
    /// the first step initializes the program counter from the reset vector;
    /// an unknown opcode is reported with nothing changed; `BRK` reports
    /// `Break` with the state intact; otherwise the instruction's effect is
    /// applied, the program counter advances past the instruction unless a
    /// jump or taken branch replaced it, and the cycle counter ticks.
    pub fn step(&mut self) -> (r: Result<(), CpuError>)
        requires
            old(self).wf(),
            old(self).cycles < usize::MAX,
            spec_step(old(self)@, false) is Some,
        ensures
            final(self).wf(),
            spec_step(old(self)@, false) == Some((final(self)@, spec_cpu_result(r))),
    {
        if self.cycles == 0 {
            let _ = self.init();
        }
        let ghost s1 = spec_started(old(self)@);
        proof {
            assert(self@ =~= s1);
        }
        let pc: usize = self.registers.PC.to_usize();
        let code: u8 = self.ram.read(self.registers.PC);
        let op: Opcode = match from_code(code) {
            None => {
                return Err(CpuError::UnknownOp(code));
            },
            Some(op) => op,
        };
        let arg: Option<u16> = match op.addr_mode {
            AddressingMode::IMPL => None,
            AddressingMode::A => None,
            AddressingMode::IMM => {
                proof {
                    assert(pc + 1 < 0x10000);
                }
                Some(self.ram.read_at(pc + 1) as u16)
            },
            AddressingMode::ABS => {
                proof {
                    assert(pc + 2 < 0x10000);
                }
                let lo = self.ram.read_at(pc + 1) as u16;
                let hi = self.ram.read_at(pc + 2) as u16;
                Some(hi * 0x100 + lo)
            },
            AddressingMode::ZPG => {
                proof {
                    assert(pc + 1 < 0x10000);
                }
                Some(self.ram.read_at(pc + 1) as u16)
            },
            AddressingMode::INDX => {
                proof {
                    assert(pc + 1 < 0x10000);
                }
                let operand = self.ram.read_at(pc + 1) as usize;
                let zp: usize = (operand + self.registers.X as usize) % 0x100;
                let lo = self.ram.read_at(zp) as u16;
                let hi = self.ram.read_at((zp + 1) % 0x100) as u16;
                Some(hi * 0x100 + lo)
            },
            AddressingMode::REL => {
                proof {
                    assert(pc + 1 < 0x10000);
                }
                let off = self.ram.read_at(pc + 1) as usize;
                let target: usize = if off < 0x80 {
                    (pc + off) % 0x10000
                } else {
                    (pc + off + 0xFF00) % 0x10000
                };
                Some(target as u16)
            },
            _ => {
                return Err(CpuError::UnimplementedAddressingMode);
            },
        };
        let ghost argv: Option<int> = match arg {
            Some(v) => Some(v as int),
            None => None,
        };
        proof {
            assert(spec_resolve(s1.ram, s1.regs.pc, s1.regs.x, op.addr_mode) == (match argv {
                Some(v) => SpecOperand::Arg(v),
                None => SpecOperand::NoArg,
            }));
        }
        let mut jumped = false;
        match (op.name, op.addr_mode, arg) {
            (OpcodeType::BRK, _, _) => {
                return Err(CpuError::Break);
            },
            (OpcodeType::NOP, AddressingMode::IMPL, _) => {},
            (OpcodeType::LDA, AddressingMode::IMM, Some(v)) => {
                self.registers.set_a(v as u8);
            },
            (OpcodeType::LDA, AddressingMode::ABS, Some(v)) => {
                let b = self.ram.read_at(v as usize);
                self.registers.set_a(b);
            },
            (OpcodeType::LDA, AddressingMode::ZPG, Some(v)) => {
                let b = self.ram.read_at(v as usize);
                self.registers.set_a(b);
            },
            (OpcodeType::STA, AddressingMode::ABS, Some(v)) => {
                let a = self.registers.A;
                self.ram.write(Address::new(v as usize), a);
            },
            (OpcodeType::STA, AddressingMode::ZPG, Some(v)) => {
                let a = self.registers.A;
                self.ram.write(Address::new(v as usize), a);
            },
            (OpcodeType::STA, AddressingMode::INDX, Some(v)) => {
                let a = self.registers.A;
                self.ram.write(Address::new(v as usize), a);
            },
            (OpcodeType::ADC, AddressingMode::IMM, Some(v)) => {
                self.registers.add_a(v as u8);
            },
            (OpcodeType::JMP, AddressingMode::ABS, Some(v)) => {
                self.registers.PC = Address::new(v as usize);
                jumped = true;
            },
            (OpcodeType::BEQ, AddressingMode::REL, Some(v)) => {
                if self.registers.test(Flags::Zero) {
                    self.registers.PC = Address::new(v as usize);
                    jumped = true;
                }
            },
            (OpcodeType::BNE, AddressingMode::REL, Some(v)) => {
                if !self.registers.test(Flags::Zero) {
                    self.registers.PC = Address::new(v as usize);
                    jumped = true;
                }
            },
            _ => {
                return Err(CpuError::InvalidAddressingMode);
            },
        }
        if !jumped {
            proof {
                assert(pc + spec_size(op.addr_mode) <= 0xFFFF);
            }
            let size = get_size(op.addr_mode);
            self.registers.PC = Address::new(pc + size);
        }
        self.cycles = self.cycles + 1;
        proof {
            assert(Some((self@, spec_cpu_result(Ok::<(), CpuError>(())))) =~= spec_step(
                old(self)@,
                false,
            ));
        }
        Ok(())
    }

    /// Whether a `step` from this state stays clear of the programming-error
    /// failures (an address computation leaving the 16-bit space), which
    /// `step` excludes by precondition. An unverified caller tests this
    /// before stepping.
    pub fn can_step(&self) -> (b: bool)
        requires
            self.wf(),
        ensures
            b == (spec_step(self@, false) is Some),
    {
        let ghost s1 = spec_started(self@);
        let pc: usize = if self.cycles == 0 {
            let lo = self.ram.read_at(0xFFFC) as usize;
            let hi = self.ram.read_at(0xFFFD) as usize;
            hi * 0x100 + lo
        } else {
            self.registers.PC.to_usize()
        };
        proof {
            assert(pc == s1.regs.pc);
        }
        let code = self.ram.read_at(pc);
        let op: Opcode = match from_code(code) {
            None => {
                return true;
            },
            Some(op) => op,
        };
        match op.addr_mode {
            AddressingMode::IMPL => {},
            AddressingMode::A => {},
            AddressingMode::ABS => {
                if pc + 2 >= 0x10000 {
                    return false;
                }
            },
            AddressingMode::IMM => {
                if pc + 1 >= 0x10000 {
                    return false;
                }
            },
            AddressingMode::ZPG => {
                if pc + 1 >= 0x10000 {
                    return false;
                }
            },
            AddressingMode::INDX => {
                if pc + 1 >= 0x10000 {
                    return false;
                }
            },
            AddressingMode::REL => {
                if pc + 1 >= 0x10000 {
                    return false;
                }
            },
            _ => {
                return true;
            },
        }
        match (op.name, op.addr_mode) {
            (OpcodeType::BRK, _) => true,
            (OpcodeType::NOP, AddressingMode::IMPL) => pc + 1 <= 0xFFFF,
            (OpcodeType::LDA, AddressingMode::IMM) => pc + 2 <= 0xFFFF,
            (OpcodeType::LDA, AddressingMode::ABS) => pc + 3 <= 0xFFFF,
            (OpcodeType::LDA, AddressingMode::ZPG) => pc + 2 <= 0xFFFF,
            (OpcodeType::STA, AddressingMode::ABS) => pc + 3 <= 0xFFFF,
            (OpcodeType::STA, AddressingMode::ZPG) => pc + 2 <= 0xFFFF,
            (OpcodeType::STA, AddressingMode::INDX) => pc + 2 <= 0xFFFF,
            (OpcodeType::ADC, AddressingMode::IMM) => pc + 2 <= 0xFFFF,
            (OpcodeType::JMP, AddressingMode::ABS) => true,
            (OpcodeType::BEQ, AddressingMode::REL) => {
                if self.registers.test(Flags::Zero) {
                    true
                } else {
                    pc + 2 <= 0xFFFF
                }
            },
            (OpcodeType::BNE, AddressingMode::REL) => {
                if !self.registers.test(Flags::Zero) {
                    true
                } else {
                    pc + 2 <= 0xFFFF
                }
            },
            _ => true,
        }
    }

    /// Reinitialize the machine: cycle counter zero, memory cleared,
    /// registers at their defaults. The program is not reloaded; the caller
    /// supplies new memory contents afterwards.
    pub fn restart(&mut self)
        ensures
            final(self).wf(),
            final(self)@ == spec_restarted(),
    {
        self.cycles = 0;
        self.ram = Ram::new();
        self.registers = Registers::default();
        proof {
            assert(self@ =~= spec_restarted());
        }
    }
}

} // verus!
