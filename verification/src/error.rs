//! The two ways in which the machine refuses its input.

use vstd::prelude::*;

verus! {

/// Why a program image or an instruction was refused.
#[derive(Clone, Copy, Debug, PartialEq, Eq, Structural)]
pub enum EaterError {
    /// A program image must be exactly 16 bytes long; this one has the
    /// length given.
    ImageLength(usize),
    /// The high nibble of the instruction byte given names none of the
    /// eleven instructions.
    UnknownOpcode(u8),
}

} // verus!
