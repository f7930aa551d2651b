//! A single-cycle emulator core for the 16-bit Hack computer.
//!
//! The machine has two general registers, a program counter, a program
//! store and a data store whose upper region is mapped to a monochrome
//! display. Every instruction is fetched and retired in one logical step.

pub mod alu;
pub mod assembler;
pub mod decode;
pub mod emulator;
pub mod error;
pub mod laws;
pub mod machine;
pub mod memory;
pub mod screen;
pub mod word;

pub use assembler::LoadError;
pub use decode::{ComputeFields, Instruction};
pub use emulator::{HackEmulator, CPU};
pub use error::EmulatorError;
pub use memory::{Memory32K, ADDRESSABLE_MEM_SIZE};
