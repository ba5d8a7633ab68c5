//! A MOS 6502 processor core with its 64 KiB bus and a disassembler, verified.
//!
//! - `flags`: the status register P.
//! - `memory`, `bus`: the flat address space and the loading of programs.
//! - `instruction`: the opcode table shared by execution and disassembly.
//! - `machine`: what one instruction does, as spec functions over registers and memory.
//! - `cpu`: the executable processor, proved against `machine`.
//! - `disassembler`, `text`, `hex_input`: text out of bytes, and bytes out of hex text.
//! - `laws`: properties that hold across calls.

pub mod flags;
pub mod memory;
pub mod instruction;
pub mod bus;
pub mod machine;
pub mod cpu;
pub mod text;
pub mod disassembler;
pub mod hex_input;
pub mod laws;
