//! Instruction-execution core of an 8-bit Game-Boy-class processor: the register
//! file, the memory bus, the typed instruction set and the executor. Each operation is
//! stated over a mathematical model (`alu`, `cpu::execute_spec`) and proved against it.

pub mod alu;
pub mod cpu;
pub mod instructions;
pub mod memory;
pub mod registers;

pub use cpu::{ExecuteError, CPU};
pub use instructions::{
    ADDHLTarget, ArithmeticTarget, BitPosition, IncDecTarget, Instruction, Interrupts,
    LoadByteSource, LoadByteTarget, LoadType, LoadWordTarget, PrefixTarget, RSTVector,
};
pub use memory::{InterruptFlags, Memory, MemoryError};
pub use registers::{FlagsRegister, Reg8, Registers};
