//! An interpreter for the CHIP-8 virtual machine: memory, registers, stack,
//! timers, keypad and display, driven one fetch-decode-execute cycle at a time.
//! The interpreter performs no input or output of its own.

pub mod chip8;
pub mod display;
mod entropy;
pub mod instruction;
pub mod keypad;
pub mod laws;
pub mod machine;
pub mod opcode;
pub mod sprite;

pub use crate::chip8::{Chip8, FONT};
pub use crate::machine::{Cycle, Fault, Status};
