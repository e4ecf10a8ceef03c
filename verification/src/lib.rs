//! A virtual machine for a small 8-bit instruction set: sixteen registers,
//! 4 KiB of memory, a 64x32 monochrome display, a 16-key pad and two
//! countdown timers.

pub mod cpu;
pub mod display;
pub mod fault;
pub mod keyboard;
pub mod laws;
pub mod machine;
pub mod opcode;
pub mod random;
pub mod state;
