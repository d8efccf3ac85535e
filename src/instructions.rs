//! Decoding of 16-bit instruction words into instructions.
use vstd::prelude::*;

use crate::{Addr, Cell, Nibble};

verus! {

/// The instructions the engine implements.
#[derive(Debug, Clone, Copy, PartialEq, Eq, Structural)]
pub enum Instruction {
    /// Do nothing.
    NOP,
    /// Clear the display.
    CLS,
    /// Jump to an absolute address.
    JP(Addr),
    /// Load an immediate byte into a register.
    LD(Nibble, Cell),
    /// Add an immediate byte to a register, wrapping, without touching the flag.
    ADD(Nibble, Cell),
    /// Load an address into the index register.
    LDI(Addr),
    /// Draw a sprite of the given height at the position held by two registers.
    DRW(Nibble, Nibble, Nibble),
}

/// Why a word could not be decoded.
#[derive(Debug, Clone, Copy, PartialEq, Eq, Structural)]
pub enum DecodeError {
    /// The word matches no implemented instruction pattern.
    Unrecognised(u16),
}

/// An instruction word, as its two bytes, most significant first.
#[derive(Debug, Clone, Copy, PartialEq, Eq, Structural)]
pub struct Opcode {
    pub msb: Cell,
    pub lsb: Cell,
}

impl Instruction {
    /// Whether every operand lies in the range its field stands for: register
    /// indices and sprite heights in a nibble, addresses in twelve bits.
    pub open spec fn wf(self) -> bool {
        match self {
            Instruction::NOP => true,
            Instruction::CLS => true,
            Instruction::JP(a) => a < 0x1000,
            Instruction::LD(x, _) => x < 16,
            Instruction::ADD(x, _) => x < 16,
            Instruction::LDI(a) => a < 0x1000,
            Instruction::DRW(x, y, n) => x < 16 && y < 16 && n < 16,
        }
    }
}

/// The 12-bit address made of three nibbles, left to right.
pub open spec fn addr_of(n1: int, n2: int, n3: int) -> int {
    n1 * 256 + n2 * 16 + n3
}

/// The byte made of two nibbles, left to right.
pub open spec fn cell_of(n1: int, n2: int) -> int {
    n1 * 16 + n2
}

/// The instruction word that two bytes make, most significant first.
pub open spec fn word_of(msb: u8, lsb: u8) -> u16 {
    (msb as int * 256 + lsb as int) as u16
}

/// What decoding the word `msb`,`lsb` gives: the pattern table, in priority order.
pub open spec fn decoded(msb: u8, lsb: u8) -> Result<Instruction, DecodeError> {
    let n1 = msb as int / 16;
    let n2 = msb as int % 16;
    let n3 = lsb as int / 16;
    let n4 = lsb as int % 16;
    if n1 == 0 && n2 == 0 && n3 == 0 && n4 == 0 {
        Ok(Instruction::NOP)
    } else if n1 == 0 && n2 == 0 && n3 == 0xE && n4 == 0 {
        Ok(Instruction::CLS)
    } else if n1 == 1 {
        Ok(Instruction::JP(addr_of(n2, n3, n4) as u16))
    } else if n1 == 6 {
        Ok(Instruction::LD(n2 as u8, cell_of(n3, n4) as u8))
    } else if n1 == 7 {
        Ok(Instruction::ADD(n2 as u8, cell_of(n3, n4) as u8))
    } else if n1 == 0xA {
        Ok(Instruction::LDI(addr_of(n2, n3, n4) as u16))
    } else if n1 == 0xD {
        Ok(Instruction::DRW(n2 as u8, n3 as u8, n4 as u8))
    } else {
        Err(DecodeError::Unrecognised(word_of(msb, lsb)))
    }
}

/// The upper four bits of a byte.
pub fn first_nibble(byte: Cell) -> (r: Nibble)
    ensures
        r == byte / 16,
{
    assert(((byte & 0xF0u8) >> 4u8) == byte / 16) by (bit_vector);
    (byte & 0xF0) >> 4
}

/// The lower four bits of a byte.
pub fn second_nibble(byte: Cell) -> (r: Nibble)
    ensures
        r == byte % 16,
{
    assert((byte & 0x0Fu8) == byte % 16) by (bit_vector);
    byte & 0x0F
}

/// The 12-bit address whose nibbles are `n1`, `n2`, `n3`, left to right.
pub fn nibbles_to_addr(n1: Nibble, n2: Nibble, n3: Nibble) -> (r: Addr)
    requires
        n1 < 16,
        n2 < 16,
        n3 < 16,
    ensures
        r == addr_of(n1 as int, n2 as int, n3 as int),
{
    let a1 = n1 as u16;
    let a2 = n2 as u16;
    let a3 = n3 as u16;
    assert(((a1 << 8u16) | (a2 << 4u16) | a3) == a1 * 256 + a2 * 16 + a3) by (bit_vector)
        requires
            a1 < 16,
            a2 < 16,
            a3 < 16,
    ;
    (a1 << 8) | (a2 << 4) | a3
}

/// The byte whose nibbles are `n1`, `n2`, left to right.
pub fn nibbles_to_cell(n1: Nibble, n2: Nibble) -> (r: Cell)
    requires
        n1 < 16,
        n2 < 16,
    ensures
        r == cell_of(n1 as int, n2 as int),
{
    assert(((n1 << 4u8) | n2) == n1 * 16 + n2) by (bit_vector)
        requires
            n1 < 16,
            n2 < 16,
    ;
    (n1 << 4) | n2
}

impl Opcode {
    /// The word whose bytes are `msb` and `lsb`, most significant first.
    pub fn new(msb: Cell, lsb: Cell) -> (r: Self)
        ensures
            r.msb == msb,
            r.lsb == lsb,
    {
        Self { msb, lsb }
    }

    /// The word as a number.
    pub open spec fn word(self) -> u16 {
        word_of(self.msb, self.lsb)
    }

    /// The four nibbles of the word, most significant first.
    fn as_nibbles(&self) -> (r: (Nibble, Nibble, Nibble, Nibble))
        ensures
            r.0 == self.msb / 16,
            r.1 == self.msb % 16,
            r.2 == self.lsb / 16,
            r.3 == self.lsb % 16,
    {
        (
            first_nibble(self.msb),
            second_nibble(self.msb),
            first_nibble(self.lsb),
            second_nibble(self.lsb),
        )
    }

    /// Decodes the word by the pattern table; a word that matches no pattern
    /// is an error that carries the word.
    pub fn decode(&self) -> (r: Result<Instruction, DecodeError>)
        ensures
            r == decoded(self.msb, self.lsb),
    {
        let (n1, n2, n3, n4) = self.as_nibbles();
        if n1 == 0 && n2 == 0 && n3 == 0 && n4 == 0 {
            Ok(Instruction::NOP)
        } else if n1 == 0 && n2 == 0 && n3 == 0xE && n4 == 0 {
            Ok(Instruction::CLS)
        } else if n1 == 1 {
            Ok(Instruction::JP(nibbles_to_addr(n2, n3, n4)))
        } else if n1 == 6 {
            Ok(Instruction::LD(n2, nibbles_to_cell(n3, n4)))
        } else if n1 == 7 {
            Ok(Instruction::ADD(n2, nibbles_to_cell(n3, n4)))
        } else if n1 == 0xA {
            Ok(Instruction::LDI(nibbles_to_addr(n2, n3, n4)))
        } else if n1 == 0xD {
            Ok(Instruction::DRW(n2, n3, n4))
        } else {
            Err(DecodeError::Unrecognised(self.msb as u16 * 256 + self.lsb as u16))
        }
    }
}

/// Decoding is total: every word gives either an instruction whose operands
/// are in range, or the error that carries that word, and the error comes
/// exactly for words whose leading nibble names no implemented instruction
/// (leading nibble 0 decodes only for the two words that mean NOP and CLS).
pub proof fn lemma_decode_total(msb: u8, lsb: u8)
    ensures
        decoded(msb, lsb) is Ok <==> (
            (msb == 0 && (lsb == 0 || lsb == 0xE0))
            || msb / 16 == 1 || msb / 16 == 6 || msb / 16 == 7
            || msb / 16 == 0xA || msb / 16 == 0xD),
        decoded(msb, lsb) matches Ok(i) ==> i.wf(),
        decoded(msb, lsb) matches Err(e) ==> e == DecodeError::Unrecognised(word_of(msb, lsb)),
{
}

} // verus!
