//! The failure values of the execution engine. Unknown opcodes are
//! data-dependent and recoverable; `Break` is the deliberate halt signal; the
//! two addressing-mode variants report an instruction/mode pairing the engine
//! cannot execute, a defect of the static tables rather than of the input.

use vstd::prelude::*;

use crate::semantics::StepError;

verus! {

/// The failures that `step` can return.
#[derive(Copy, Clone, PartialEq, Eq, Structural, Debug)]
pub enum CpuError {
    /// The byte at the program counter has no opcode-table entry.
    UnknownOp(u8),
    /// A `BRK` instruction was executed: a deliberate, reportable halt.
    Break,
    /// The instruction is paired with an addressing mode it does not support.
    InvalidAddressingMode,
    /// The instruction selects an addressing mode the engine does not
    /// implement.
    UnimplementedAddressingMode,
}

/// How a `step` result reads in the machine model.
pub open spec fn spec_cpu_result(r: Result<(), CpuError>) -> Option<StepError> {
    match r {
        Ok(_) => None,
        Err(CpuError::UnknownOp(b)) => Some(StepError::UnknownOpcode(b)),
        Err(CpuError::Break) => Some(StepError::Break),
        Err(CpuError::InvalidAddressingMode) => Some(StepError::InvalidAddressingMode),
        Err(CpuError::UnimplementedAddressingMode) => Some(
            StepError::UnimplementedAddressingMode,
        ),
    }
}

} // verus!
