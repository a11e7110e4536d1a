//! A register-based bytecode virtual machine and the assembler front end that
//! produces its programs.
//!
//! `instructions` holds the opcode table, `assembler` turns one line of
//! assembly text into bytes, and `vm` executes a byte stream against 32
//! registers, a heap and an equality flag.

pub mod arith;
pub mod assembler;
pub mod instructions;
pub mod round_trip;
pub mod vm;
