//! An interpreter for a subset of the 32-bit x86 instruction set.
//!
//! Raw machine code is loaded into a flat, byte-addressable memory and executed
//! against a register file of eight 32-bit registers, an instruction pointer and
//! a flags register.

pub mod emulator;
