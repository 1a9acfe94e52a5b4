//! A minimal virtual CPU: a fixed instruction set over a flat byte-addressable
//! memory and a small register file, with a verified fetch-decode-execute step.
//!
//! The binary instruction format produced by [`iset::Instruction::to_bytes`] is
//! the wire format the engine in [`cpu`] consumes. The engine's behaviour is
//! specified by the mathematical interpreter [`cpu::step_spec`], and
//! [`cpu::Cpu::next_instruction`] is proved to implement it exactly.

pub mod cpu;
pub mod iset;
pub mod laws;
