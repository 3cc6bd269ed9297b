//! The phases of an instruction, and the form in which the instruction
//! travels through them.

use vstd::prelude::*;
use crate::error::EaterError;
use crate::isa::{low_nibble, opcode_of, operand_nibble, Opcode};

verus! {

/// An instruction as it enters the first phase of execution: the opcode with
/// its raw operand, the low nibble of the instruction byte. For a load, an
/// addition, a subtraction and a store the operand is an address, for a
/// load-immediate a literal, for a jump the target.
#[derive(Clone, Copy, Debug, PartialEq, Eq, Structural)]
pub enum Inst3 {
    Nop,
    Lda(u8),
    Add(u8),
    Sub(u8),
    Sta(u8),
    Ldi(u8),
    Jmp(u8),
    Jc(u8),
    Jz(u8),
    Out,
    Hlt,
}

/// An instruction as it enters the second phase of execution. Only the
/// instructions that address memory still carry their operand.
#[derive(Clone, Copy, Debug, PartialEq, Eq, Structural)]
pub enum Inst4 {
    Nop,
    Lda(u8),
    Add(u8),
    Sub(u8),
    Sta(u8),
    Ldi,
    Jmp,
    Jc,
    Jz,
    Out,
}

/// An instruction as it enters the last phase of execution. Addition and
/// subtraction carry the byte that was read from memory.
#[derive(Clone, Copy, Debug, PartialEq, Eq, Structural)]
pub enum Inst5 {
    Nop,
    Lda,
    Add(u8),
    Sub(u8),
    Sta,
    Ldi,
    Jmp,
    Jc,
    Jz,
    Out,
}

/// The phase that the next step will perform.
#[derive(Clone, Copy, Debug, PartialEq, Eq, Structural)]
pub enum EaterCycle {
    /// Take a snapshot of the program counter.
    LatchPC,
    /// Read the instruction at the snapshot and move the program counter on.
    Fetch(u8),
    /// First phase of execution.
    Execute3(Inst3),
    /// Second phase of execution: memory is read or written.
    Execute4(Inst4),
    /// Third phase of execution: arithmetic is finished.
    Execute5(Inst5),
}

impl Default for EaterCycle {
    fn default() -> (cycle: EaterCycle)
        ensures
            cycle == EaterCycle::LatchPC,
    {
        EaterCycle::LatchPC
    }
}

impl Inst3 {
    /// The form in which an instruction byte enters execution, if it encodes
    /// an instruction: the opcode that the high nibble selects, with the low
    /// nibble as operand where the instruction has one.
    pub open spec fn decode_spec(byte: u8) -> Option<Inst3> {
        match opcode_of(byte) {
            Some(Opcode::Nop) => Some(Inst3::Nop),
            Some(Opcode::Lda) => Some(Inst3::Lda(operand_nibble(byte))),
            Some(Opcode::Add) => Some(Inst3::Add(operand_nibble(byte))),
            Some(Opcode::Sub) => Some(Inst3::Sub(operand_nibble(byte))),
            Some(Opcode::Sta) => Some(Inst3::Sta(operand_nibble(byte))),
            Some(Opcode::Ldi) => Some(Inst3::Ldi(operand_nibble(byte))),
            Some(Opcode::Jmp) => Some(Inst3::Jmp(operand_nibble(byte))),
            Some(Opcode::Jc) => Some(Inst3::Jc(operand_nibble(byte))),
            Some(Opcode::Jz) => Some(Inst3::Jz(operand_nibble(byte))),
            Some(Opcode::Out) => Some(Inst3::Out),
            Some(Opcode::Hlt) => Some(Inst3::Hlt),
            None => None,
        }
    }

    /// Decodes an instruction byte. A byte whose high nibble names no
    /// instruction is returned in the error.
    pub fn decode(value: u8) -> (decoded: Result<Inst3, EaterError>)
        ensures
            decoded == match Inst3::decode_spec(value) {
                Some(inst) => Ok::<Inst3, EaterError>(inst),
                None => Err(EaterError::UnknownOpcode(value)),
            },
    {
        match Opcode::decode(value) {
            Ok(Opcode::Nop) => Ok(Inst3::Nop),
            Ok(Opcode::Lda) => Ok(Inst3::Lda(low_nibble(value))),
            Ok(Opcode::Add) => Ok(Inst3::Add(low_nibble(value))),
            Ok(Opcode::Sub) => Ok(Inst3::Sub(low_nibble(value))),
            Ok(Opcode::Sta) => Ok(Inst3::Sta(low_nibble(value))),
            Ok(Opcode::Ldi) => Ok(Inst3::Ldi(low_nibble(value))),
            Ok(Opcode::Jmp) => Ok(Inst3::Jmp(low_nibble(value))),
            Ok(Opcode::Jc) => Ok(Inst3::Jc(low_nibble(value))),
            Ok(Opcode::Jz) => Ok(Inst3::Jz(low_nibble(value))),
            Ok(Opcode::Out) => Ok(Inst3::Out),
            Ok(Opcode::Hlt) => Ok(Inst3::Hlt),
            Err(error) => Err(error),
        }
    }
}

} // verus!
