//! The failure values of this engine generation; the same taxonomy as the
//! current engine's, under the name its callers used.

use vstd::prelude::*;

use crate::semantics::StepError;

verus! {

/// The failures that this generation's `step` can return.
#[derive(Copy, Clone, PartialEq, Eq, Structural, Debug)]
pub enum EmulatorError {
    /// The byte at the program counter has no opcode-table entry.
    UnknownOp(u8),
    /// A `BRK` was executed, or the Break flag was already set: a deliberate,
    /// reportable halt.
    Break,
    /// The instruction is paired with an addressing mode it does not support.
    InvalidAddressingMode,
    /// The instruction selects an addressing mode the engine does not
    /// implement.
    UnimplementedAddressingMode,
}

/// How a `step` result of this generation reads in the machine model.
pub open spec fn spec_emu_result(r: Result<(), EmulatorError>) -> Option<StepError> {
    match r {
        Ok(_) => None,
        Err(EmulatorError::UnknownOp(b)) => Some(StepError::UnknownOpcode(b)),
        Err(EmulatorError::Break) => Some(StepError::Break),
        Err(EmulatorError::InvalidAddressingMode) => Some(StepError::InvalidAddressingMode),
        Err(EmulatorError::UnimplementedAddressingMode) => Some(
            StepError::UnimplementedAddressingMode,
        ),
    }
}

} // verus!
