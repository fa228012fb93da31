//! Instruction-execution core of a Game-Boy-class machine: register file,
//! opcode decoder, execution engine, timer and memory-mapped I/O.
#![allow(non_snake_case)]

pub mod system;
