//! Instruction-execution core of an Intel-8080-class 8-bit microprocessor:
//! a register file, the five status flags, a bounds-checked byte-addressable
//! memory bus, an opcode-indexed instruction table, and a fetch-decode-execute
//! loop with an interrupt injection hook and snapshot/restore.

pub mod cpu;
pub mod fault;
pub mod flags;
pub mod instr;
pub mod memory;
pub mod registers;

pub use cpu::{Cpu, CpuView};
pub use fault::{Fault, Status};
pub use flags::Flags;
pub use instr::{Instruction, OpKind};
pub use memory::Memory;
pub use registers::{Reg, RegPair, RegisterFile};
