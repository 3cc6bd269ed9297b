//! The instruction interpreter: one whole instruction per step.

use vstd::prelude::*;
use crate::alu::{alu_add, alu_sub};
use crate::cpu::{image_of, Cpu};
use crate::error::EaterError;
use crate::flags::Flags;
use crate::isa::{low_nibble, Opcode};
use crate::machine::MachineState;

verus! {

/// The instruction interpreter.
#[derive(Debug)]
pub struct EaterVm {
    cpu: Cpu,
    out: Vec<u8>,
}

impl View for EaterVm {
    type V = MachineState;

    closed spec fn view(&self) -> MachineState {
        self.cpu.state(self.out@)
    }
}

impl Default for EaterVm {
    fn default() -> (vm: EaterVm)
        ensures
            vm@ == MachineState::reset(),
    {
        EaterVm::new()
    }
}

impl EaterVm {
    /// An interpreter with everything zero.
    pub fn new() -> (vm: EaterVm)
        ensures
            vm@ == MachineState::reset(),
    {
        EaterVm { cpu: Cpu::new(), out: Vec::new() }
    }

    /// Replaces the memory by a program image of exactly 16 bytes. An image
    /// of any other length is refused and changes nothing.
    pub fn load(&mut self, mem: &[u8]) -> (outcome: Result<(), EaterError>)
        ensures
            mem@.len() == 16 ==> outcome is Ok && final(self)@ == old(self)@.with_memory(mem@),
            mem@.len() != 16 ==> outcome == Err::<(), EaterError>(
                EaterError::ImageLength(mem@.len() as usize),
            ) && final(self)@ == old(self)@,
            final(self)@.wf(),
    {
        proof {
            use_type_invariant(&self.cpu);
        }
        match image_of(mem) {
            Ok(image) => {
                self.cpu.mem = image;
                Ok(())
            },
            Err(error) => Err(error),
        }
    }

    /// Executes the instruction under the program counter and reports
    /// whether the machine is halted.
    ///
    /// A halted machine stays exactly as it is and reports `Ok(true)`. A
    /// byte that encodes no instruction changes nothing and is returned in
    /// the error. The program counter is below 16 after every call.
    pub fn step(&mut self) -> (outcome: Result<bool, EaterError>)
        ensures
            final(self)@ == old(self)@.step(),
            outcome == old(self)@.outcome(),
            final(self)@.wf(),
            final(self)@.pc < 16,
            old(self)@.halt ==> final(self)@ == old(self)@ && outcome == Ok::<bool, EaterError>(
                true,
            ),
    {
        proof {
            use_type_invariant(&self.cpu);
            reveal(MachineState::step);
        }
        if self.cpu.halt {
            return Ok(true);
        }
        let inst: u8 = self.cpu.mem[self.cpu.pc as usize];
        let x: u8 = low_nibble(inst);
        let opcode = match Opcode::decode(inst) {
            Ok(opcode) => opcode,
            Err(error) => {
                return Err(error);
            },
        };
        self.cpu.pc = low_nibble(self.cpu.pc + 1);

        match opcode {
            Opcode::Nop => {},
            Opcode::Lda => {
                self.cpu.a = self.cpu.mem[x as usize];
            },
            Opcode::Add => {
                let (a, flags) = alu_add(self.cpu.a, self.cpu.mem[x as usize]);
                self.cpu.a = a;
                self.cpu.flags = flags;
            },
            Opcode::Sub => {
                let (a, flags) = alu_sub(self.cpu.a, self.cpu.mem[x as usize]);
                self.cpu.a = a;
                self.cpu.flags = flags;
            },
            Opcode::Sta => {
                self.cpu.mem[x as usize] = self.cpu.a;
            },
            Opcode::Ldi => {
                self.cpu.a = x;
            },
            Opcode::Jmp => {
                self.cpu.pc = x;
            },
            Opcode::Jc => {
                if self.cpu.flags.is_carry() {
                    self.cpu.pc = x;
                }
            },
            Opcode::Jz => {
                if self.cpu.flags.is_zero() {
                    self.cpu.pc = x;
                }
            },
            Opcode::Out => {
                self.out.push(self.cpu.a);
            },
            Opcode::Hlt => {
                self.cpu.halt = true;
            },
        }
        Ok(self.cpu.halt)
    }

    /// The program counter.
    pub fn pc(&self) -> (pc: u8)
        ensures
            pc == self@.pc,
            pc < 16,
    {
        proof {
            use_type_invariant(&self.cpu);
        }
        self.cpu.pc
    }

    /// The accumulator.
    pub fn a(&self) -> (a: u8)
        ensures
            a == self@.a,
    {
        self.cpu.a
    }

    /// The status flags.
    pub fn flags(&self) -> (flags: Flags)
        ensures
            flags == self@.flags,
    {
        self.cpu.flags
    }

    /// A copy of the memory.
    pub fn mem(&self) -> (mem: [u8; 16])
        ensures
            mem@ == self@.mem,
    {
        self.cpu.mem
    }

    /// Whether the machine has halted.
    pub fn halt(&self) -> (halt: bool)
        ensures
            halt == self@.halt,
    {
        self.cpu.halt
    }

    /// The values emitted and not yet taken, oldest first.
    pub fn output(&self) -> (out: &[u8])
        ensures
            out@ == self@.out,
    {
        self.out.as_slice()
    }

    /// Takes the emitted values out of the machine, oldest first, and
    /// leaves it with none.
    pub fn take_output(&mut self) -> (out: Vec<u8>)
        ensures
            out@ == old(self)@.out,
            final(self)@ == (MachineState { out: Seq::empty(), ..old(self)@ }),
    {
        let mut out: Vec<u8> = Vec::new();
        core::mem::swap(&mut self.out, &mut out);
        out
    }
}

} // verus!
