//! A CHIP-8 virtual machine: an opcode decoder and an engine that fetches,
//! decodes and executes one instruction per step.
use vstd::prelude::*;

pub mod instructions;
pub mod interpreter;
pub mod lemmas;

verus! {

/// A four-bit value held in a byte.
pub type Nibble = u8;

/// One byte of memory or one general-purpose register.
pub type Cell = u8;

/// A memory address or program counter value.
pub type Addr = u16;

} // verus!
