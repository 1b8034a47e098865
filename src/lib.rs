//! A CHIP-8 virtual machine: bounds-checked memory, the register file with its two 60 Hz
//! timers, instruction decoding with disassembly, the semantics of every instruction, and
//! the notifications by which the engine tells its host about framebuffer changes.
pub mod callback;
pub mod chip;
pub mod config;
pub mod disasm;
pub mod instruction;
pub mod laws;
pub mod memory;
pub mod ops;
pub mod register;
