//! Instruction execution core of a Sharp LR35902-class 8-bit CPU (the Game
//! Boy CPU): register file, 64 KiB memory bus, the two 256-entry instruction
//! tables, and the fetch-decode-execute engine with cycle accounting.

pub mod alu;
pub mod cpu;
pub mod memory;
pub mod opcode;
pub mod register;
