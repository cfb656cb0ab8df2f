//! A verified CHIP-8 instruction processor.
//!
//! The crate models the machine state (memory, registers, call stack,
//! timers, framebuffer) and gives every opcode handler an exact contract
//! over a mathematical view of that state.

pub mod keypad;
pub mod laws;
pub mod memory;
pub mod opcodes;
pub mod processor;
pub mod state;
