//! A verified emulator core for a 16-bit instructional computer: a flat
//! word-addressable memory of 65,536 words, eight general-purpose registers
//! with a program counter and a three-valued condition register, and a closed
//! set of sixteen opcodes executed one instruction at a time.
//!
//! The crate verifies the decode/execute engine itself. Console I/O is left
//! to the caller: an instruction that prints hands back the bytes to write,
//! and one that reads asks the caller for a byte, so that every decision the
//! machine makes is covered by a contract.

pub mod instruction;
pub mod isa;
pub mod memory;
pub mod opcode;
pub mod program;
pub mod register;
