//! The command side of the run driver: the commands a front-end sends, and
//! what one command does to the machine under the lock. The loop that owns
//! the thread, the channels and the polling stays outside the library; it
//! performs `Run` by issuing one `Step` at a time through this same entry.

use vstd::prelude::*;

use crate::components::spec_default_regs;
use crate::error::{spec_cpu_result, CpuError};
use crate::semantics::{spec_step, StepError, SysView};
use crate::system::System;

verus! {

/// What a `Get` command asks for.
#[derive(Copy, Clone, PartialEq, Eq, Structural, Debug)]
pub enum GetType {
    /// A copy of `memory[start..end]`.
    Range(usize, usize),
    /// A copy of the single byte at an address.
    Value(usize),
    /// The register snapshot; the front-end reads it under the lock itself.
    Flags,
}

/// The commands the run driver accepts.
#[derive(Copy, Clone, PartialEq, Eq, Structural, Debug)]
pub enum Cmd {
    /// Execute exactly one instruction.
    Step,
    /// Execute continuously until `Stop` or a failure; the driver loop
    /// performs this as repeated `Step`s with a poll in between.
    Run,
    /// End an active `Run` loop; otherwise a no-op.
    Stop,
    /// Copy memory out for display.
    Get(GetType),
    /// Reinitialize the machine and reload the program image.
    Reset,
}

/// A fresh copy of a byte vector.
pub fn copy_bytes(src: &Vec<u8>) -> (r: Vec<u8>)
    ensures
        r@ == src@,
{
    let mut out: Vec<u8> = Vec::new();
    let mut i: usize = 0;
    while i < src.len()
        invariant
            i <= src@.len(),
            out@ =~= src@.subrange(0, i as int),
        decreases src@.len() - i,
    {
        out.push(src[i]);
        i = i + 1;
    }
    proof {
        assert(out@ =~= src@);
    }
    out
}

/// Apply one command to the machine: `Step` executes one instruction and
/// surfaces its failure; `Reset` reinitializes and reloads the program
/// image; `Get` copies the requested bytes out without touching the state;
/// `Run` and `Stop` only steer the driver loop and change nothing here.
pub fn apply_command(system: &mut System, cmd: Cmd, program: &Vec<u8>) -> (r: Result<
    Option<Vec<u8>>,
    CpuError,
>)
    requires
        old(system).wf(),
        program@.len() == 0x10000,
        cmd is Step ==> spec_step(old(system)@, false) is Some && old(system).cycles < usize::MAX,
        cmd matches Cmd::Get(GetType::Range(start, end)) ==> start <= end && end <= 0x10000,
        cmd matches Cmd::Get(GetType::Value(addr)) ==> addr < 0x10000,
    ensures
        final(system).wf(),
        ({
            let s0 = old(system)@;
            match cmd {
                Cmd::Step => match r {
                    Ok(d) => d is None && spec_step(s0, false) == Some(
                        (final(system)@, None::<StepError>),
                    ),
                    Err(e) => spec_step(s0, false) == Some(
                        (final(system)@, spec_cpu_result(Err(e))),
                    ),
                },
                Cmd::Reset => r matches Ok(d) && d is None && final(system)@ == (SysView {
                    cycles: 0,
                    ram: program@,
                    regs: spec_default_regs(),
                }),
                Cmd::Get(g) => final(system)@ == s0 && (match g {
                    GetType::Range(start, end) => r matches Ok(d) && d matches Some(bytes)
                        && bytes@ == s0.ram.subrange(start as int, end as int),
                    GetType::Value(addr) => r matches Ok(d) && d matches Some(bytes) && bytes@
                        == seq![s0.ram[addr as int]],
                    GetType::Flags => r matches Ok(d) && d is None,
                }),
                Cmd::Run => final(system)@ == s0 && (r matches Ok(d) && d is None),
                Cmd::Stop => final(system)@ == s0 && (r matches Ok(d) && d is None),
            }
        }),
{
    match cmd {
        Cmd::Step => match system.step() {
            Ok(_) => Ok(None),
            Err(e) => Err(e),
        },
        Cmd::Reset => {
            system.restart();
            system.ram.load(copy_bytes(program));
            proof {
                assert(system@ =~= (SysView {
                    cycles: 0,
                    ram: program@,
                    regs: spec_default_regs(),
                }));
            }
            Ok(None)
        },
        Cmd::Get(g) => match g {
            GetType::Range(start, end) => Ok(Some(system.ram.read_range(start, end))),
            GetType::Value(addr) => {
                let b = system.ram.read_at(addr);
                let mut bytes: Vec<u8> = Vec::new();
                bytes.push(b);
                proof {
                    assert(bytes@ =~= seq![old(system)@.ram[addr as int]]);
                }
                Ok(Some(bytes))
            },
            GetType::Flags => Ok(None),
        },
        Cmd::Run => Ok(None),
        Cmd::Stop => Ok(None),
    }
}

} // verus!
