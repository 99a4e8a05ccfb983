//! A verified emulator core for the MOS 6502 processor.
//!
//! The processor state, the instruction table and the semantics of every
//! supported instruction are stated as specification functions, and the
//! executable emulator is proved to follow them step by step.

pub mod flags;
pub mod opcodes;
pub mod state;
pub mod semantics;
pub mod cpu;
pub mod laws;
pub mod instruction_laws;
