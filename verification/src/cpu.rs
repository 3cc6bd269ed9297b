//! The registers and the memory that both machines are built on.

use vstd::prelude::*;
use crate::error::EaterError;
use crate::flags::Flags;
use crate::machine::MachineState;

verus! {

/// Memory, program counter, accumulator, flags and halt latch. The program
/// counter is a 4-bit register: it is below 16 at all times.
#[derive(Debug)]
pub(crate) struct Cpu {
    pub(crate) mem: [u8; 16],
    pub(crate) pc: u8,
    pub(crate) a: u8,
    pub(crate) flags: Flags,
    pub(crate) halt: bool,
}

impl Cpu {
    #[verifier::type_invariant]
    pub(crate) open spec fn inv(self) -> bool {
        self.pc < 16
    }

    /// The machine state that these registers make up together with the
    /// values emitted so far.
    pub(crate) open spec fn state(self, out: Seq<u8>) -> MachineState {
        MachineState {
            mem: self.mem@,
            pc: self.pc,
            a: self.a,
            flags: self.flags,
            halt: self.halt,
            out,
        }
    }

    /// Everything zero.
    pub(crate) fn new() -> (cpu: Cpu)
        ensures
            cpu.state(Seq::empty()) == MachineState::reset(),
    {
        let cpu = Cpu { mem: [0u8; 16], pc: 0, a: 0, flags: Flags::Clear, halt: false };
        assert(cpu.mem@ =~= Seq::new(16, |i: int| 0u8));
        cpu
    }
}

/// Copies a program image into an array, if it is 16 bytes long.
pub(crate) fn image_of(bytes: &[u8]) -> (image: Result<[u8; 16], EaterError>)
    ensures
        bytes@.len() == 16 ==> image is Ok && image->Ok_0@ == bytes@,
        bytes@.len() != 16 ==> image == Err::<[u8; 16], EaterError>(
            EaterError::ImageLength(bytes@.len() as usize),
        ),
{
    if bytes.len() != 16 {
        return Err(EaterError::ImageLength(bytes.len()));
    }
    let mut image = [0u8; 16];
    let mut i: usize = 0;
    while i < 16
        invariant
            i <= 16,
            bytes@.len() == 16,
            forall|j: int| 0 <= j < i ==> image@[j] == bytes@[j],
        decreases 16 - i,
    {
        image[i] = bytes[i];
        i = i + 1;
    }
    assert(image@ =~= bytes@);
    Ok(image)
}

} // verus!
