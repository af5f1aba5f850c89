//! Instruction dispatch and execution core of an emulator for an 8-bit,
//! Z80-derived handheld-console CPU.
//!
//! The crate models the register file with its packed flag bits, the
//! primary, prefixed and cycle lookup tables, a byte-addressable 64 KiB
//! memory, and the fetch-decode-execute step function.  Every instruction
//! handler carries a contract stating exactly how it moves the registers,
//! the flags, the memory and the program counter.

pub mod bit_operations;
pub mod cpu;
pub mod instructions;
pub mod laws;
pub mod memory;
pub mod prefixed_instructions;
pub mod registers;
