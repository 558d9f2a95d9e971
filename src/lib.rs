//! Core of an 8-bit Game-Boy-class processor: memory bus, register file,
//! flags, opcode decoder and the fetch-decode-execute engine.
pub mod cpu;
pub mod flags;
pub mod instructions;
pub mod memory_bus;
pub mod registers;

pub use flags::FlagsRegister;
pub use memory_bus::MemoryBus;
pub use registers::Registers;
pub use instructions::Instruction;
pub use cpu::{StepError, CPU};
