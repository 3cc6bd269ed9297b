//! An emulator of a breadboard computer with sixteen bytes of memory, one
//! 8-bit accumulator, a 4-bit program counter and two status flags.
//!
//! [`EaterSim`] advances one clock phase at a time, as the hardware does;
//! [`EaterVm`] executes one whole instruction per step. Both are specified
//! over the same machine state ([`machine::MachineState`]), and [`equiv`]
//! proves that they run every program to the same end.

pub mod alu;
mod cpu;
pub mod cycle;
pub mod equiv;
pub mod error;
pub mod flags;
pub mod interp;
pub mod isa;
pub mod machine;
pub mod phases;
pub mod sim;

pub use cycle::{EaterCycle, Inst3, Inst4, Inst5};
pub use error::EaterError;
pub use flags::Flags;
pub use interp::EaterVm;
pub use sim::EaterSim;
