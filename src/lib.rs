pub mod cpu;
pub mod flags;
pub mod memory;
pub mod opcodes;

pub use cpu::{CpuError, StepOutcome, CPU};
pub use flags::{CARRY, DECIMAL, INTERRUPT, NEGATIVE, OVERFLOW, ZERO};
pub use memory::Memory;
pub use opcodes::{decode, AddressingMode, Mnemonic, Opcode};
