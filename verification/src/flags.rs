//! The status register: two flags, Zero and Carry, of which at most one is
//! ever set.

use vstd::prelude::*;

verus! {

/// The contents of the status register.
///
/// The machine never shows Zero and Carry together, so the register has
/// exactly three states, and the type has no fourth.
#[derive(Clone, Copy, Debug, PartialEq, Eq, Structural)]
pub enum Flags {
    /// Neither flag is set.
    Clear,
    /// Only the Zero flag is set.
    Zero,
    /// Only the Carry flag is set.
    Carry,
}

impl Flags {
    /// Whether the Zero flag is set.
    pub open spec fn zero(self) -> bool {
        self == Flags::Zero
    }

    /// Whether the Carry flag is set.
    pub open spec fn carry(self) -> bool {
        self == Flags::Carry
    }

    /// Tests the Zero flag.
    pub fn is_zero(self) -> (set: bool)
        ensures
            set == self.zero(),
    {
        match self {
            Flags::Zero => true,
            _ => false,
        }
    }

    /// Tests the Carry flag.
    pub fn is_carry(self) -> (set: bool)
        ensures
            set == self.carry(),
    {
        match self {
            Flags::Carry => true,
            _ => false,
        }
    }
}

impl Default for Flags {
    fn default() -> (flags: Flags)
        ensures
            flags == Flags::Clear,
    {
        Flags::Clear
    }
}

} // verus!
