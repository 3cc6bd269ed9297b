//! The instruction set: the eleven instructions, and how a byte splits into
//! opcode and operand.

use vstd::prelude::*;
use crate::error::EaterError;

verus! {

/// The eleven instructions.
#[derive(Clone, Copy, Debug, PartialEq, Eq, Structural)]
pub enum Opcode {
    /// Does nothing.
    Nop,
    /// Loads the accumulator from the addressed cell.
    Lda,
    /// Adds the addressed cell to the accumulator and sets the flags.
    Add,
    /// Subtracts the addressed cell from the accumulator and sets the flags.
    Sub,
    /// Stores the accumulator in the addressed cell.
    Sta,
    /// Loads the accumulator with the operand itself.
    Ldi,
    /// Jumps to the operand.
    Jmp,
    /// Jumps to the operand if Carry is set.
    Jc,
    /// Jumps to the operand if Zero is set.
    Jz,
    /// Emits the accumulator.
    Out,
    /// Halts the machine.
    Hlt,
}

/// The high nibble of an instruction byte: it selects the instruction.
pub open spec fn opcode_nibble(byte: u8) -> u8 {
    byte / 16
}

/// The low nibble of an instruction byte: an address, a literal or a jump
/// target, always below 16.
pub open spec fn operand_nibble(byte: u8) -> u8 {
    byte % 16
}

/// The instruction that an instruction byte encodes, if any. Five of the
/// sixteen high nibbles (9 to 13) encode none.
pub open spec fn opcode_of(byte: u8) -> Option<Opcode> {
    let nibble = opcode_nibble(byte);
    if nibble == 0x0 {
        Some(Opcode::Nop)
    } else if nibble == 0x1 {
        Some(Opcode::Lda)
    } else if nibble == 0x2 {
        Some(Opcode::Add)
    } else if nibble == 0x3 {
        Some(Opcode::Sub)
    } else if nibble == 0x4 {
        Some(Opcode::Sta)
    } else if nibble == 0x5 {
        Some(Opcode::Ldi)
    } else if nibble == 0x6 {
        Some(Opcode::Jmp)
    } else if nibble == 0x7 {
        Some(Opcode::Jc)
    } else if nibble == 0x8 {
        Some(Opcode::Jz)
    } else if nibble == 0xe {
        Some(Opcode::Out)
    } else if nibble == 0xf {
        Some(Opcode::Hlt)
    } else {
        None
    }
}

/// Splits off the high nibble of a byte.
pub fn high_nibble(byte: u8) -> (nibble: u8)
    ensures
        nibble == opcode_nibble(byte),
        nibble < 16,
{
    assert(byte >> 4 == byte / 16) by (bit_vector);
    byte >> 4
}

/// Splits off the low nibble of a byte.
pub fn low_nibble(byte: u8) -> (nibble: u8)
    ensures
        nibble == operand_nibble(byte),
        nibble < 16,
{
    assert(byte & 0xf == byte % 16) by (bit_vector);
    byte & 0xf
}

impl Opcode {
    /// Decodes the high nibble of an instruction byte. A byte whose high
    /// nibble names no instruction is returned in the error.
    pub fn decode(byte: u8) -> (decoded: Result<Opcode, EaterError>)
        ensures
            decoded == match opcode_of(byte) {
                Some(opcode) => Ok::<Opcode, EaterError>(opcode),
                None => Err(EaterError::UnknownOpcode(byte)),
            },
    {
        match high_nibble(byte) {
            0x0 => Ok(Opcode::Nop),
            0x1 => Ok(Opcode::Lda),
            0x2 => Ok(Opcode::Add),
            0x3 => Ok(Opcode::Sub),
            0x4 => Ok(Opcode::Sta),
            0x5 => Ok(Opcode::Ldi),
            0x6 => Ok(Opcode::Jmp),
            0x7 => Ok(Opcode::Jc),
            0x8 => Ok(Opcode::Jz),
            0xe => Ok(Opcode::Out),
            0xf => Ok(Opcode::Hlt),
            _ => Err(EaterError::UnknownOpcode(byte)),
        }
    }
}

} // verus!
