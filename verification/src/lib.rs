//! A small 6502-family emulator core: a validated 16-bit address type, a
//! register file with status flags, a 64 KiB memory, an opcode table, and a
//! fetch-decode-execute engine, together with the command handling that a
//! front-end drives it with.

pub mod addressing_modes;
pub mod components;
pub mod emulator;
pub mod error;
pub mod handler;
pub mod opcodes;
pub mod semantics;
pub mod sixty_five;
pub mod system;
