//! A small instruction-set simulator for a toy 16-bit real-mode processor.
//!
//! The processor has a register file, a flat 64 KiB memory and a
//! fetch-decode-execute cycle over a short list of opcodes. Every operation is
//! specified against a mathematical model of the machine, [`model::Machine`],
//! and proved to follow it.

pub mod diagnostic;
pub mod flags;
pub mod registers;
pub mod model;
pub mod cpu;
pub mod program;
pub mod laws;
