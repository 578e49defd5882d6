//! The middle generation of the execution engine: the register file carries
//! the status byte and a plain 16-bit program counter, the step refuses to
//! run while the Break flag is set, and `BRK` reports the halt. It shares
//! the opcode table, the addressing modes and the machine model with the
//! current engine in `system`.

pub mod cpu;
pub mod emulator;
pub mod error;
