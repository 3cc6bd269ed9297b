//! The machine that a program sees: memory, registers, flags, halt latch and
//! output, and what one instruction does to them.

use vstd::prelude::*;
use crate::alu::{add_spec, sub_spec};
use crate::error::EaterError;
use crate::flags::Flags;
use crate::isa::{opcode_of, operand_nibble, Opcode};

verus! {

/// Everything that a program can observe or change: the state that both the
/// instruction interpreter and the phase simulator are specified over.
pub struct MachineState {
    /// The sixteen memory cells.
    pub mem: Seq<u8>,
    /// The program counter.
    pub pc: u8,
    /// The accumulator.
    pub a: u8,
    /// The status flags.
    pub flags: Flags,
    /// The halt latch.
    pub halt: bool,
    /// The values emitted so far, oldest first.
    pub out: Seq<u8>,
}

impl MachineState {
    /// A machine has sixteen memory cells and a program counter below 16.
    pub open spec fn wf(self) -> bool {
        &&& self.mem.len() == 16
        &&& self.pc < 16
    }

    /// The machine as it is built: everything zero, nothing emitted.
    pub open spec fn reset() -> MachineState {
        MachineState {
            mem: Seq::new(16, |i: int| 0u8),
            pc: 0,
            a: 0,
            flags: Flags::Clear,
            halt: false,
            out: Seq::empty(),
        }
    }

    /// The machine with its memory replaced by a program image.
    pub open spec fn with_memory(self, image: Seq<u8>) -> MachineState {
        MachineState { mem: image, ..self }
    }

    /// The machine with its program counter moved to the next cell, from
    /// the last cell back to the first.
    pub open spec fn advance_pc(self) -> MachineState {
        MachineState { pc: ((self.pc + 1) % 16) as u8, ..self }
    }

    /// The byte under the program counter.
    pub open spec fn current(self) -> u8 {
        self.mem[self.pc as int]
    }

    /// The effect of one instruction with operand `x` on a machine whose
    /// program counter already points behind it.
    pub open spec fn execute(self, opcode: Opcode, x: u8) -> MachineState {
        match opcode {
            Opcode::Nop => self,
            Opcode::Lda => MachineState { a: self.mem[x as int], ..self },
            Opcode::Add => {
                let (a, flags) = add_spec(self.a, self.mem[x as int]);
                MachineState { a, flags, ..self }
            },
            Opcode::Sub => {
                let (a, flags) = sub_spec(self.a, self.mem[x as int]);
                MachineState { a, flags, ..self }
            },
            Opcode::Sta => MachineState { mem: self.mem.update(x as int, self.a), ..self },
            Opcode::Ldi => MachineState { a: x, ..self },
            Opcode::Jmp => MachineState { pc: x, ..self },
            Opcode::Jc => if self.flags.carry() {
                MachineState { pc: x, ..self }
            } else {
                self
            },
            Opcode::Jz => if self.flags.zero() {
                MachineState { pc: x, ..self }
            } else {
                self
            },
            Opcode::Out => MachineState { out: self.out.push(self.a), ..self },
            Opcode::Hlt => MachineState { halt: true, ..self },
        }
    }

    /// Whether the machine can go no further: it has halted, or the byte
    /// under its program counter encodes no instruction.
    pub open spec fn stopped(self) -> bool {
        self.halt || opcode_of(self.current()) is None
    }

    /// The machine after one whole instruction. A stopped machine stays as
    /// it is.
    #[verifier::opaque]
    pub open spec fn step(self) -> MachineState {
        if self.halt {
            self
        } else {
            match opcode_of(self.current()) {
                Some(opcode) => self.advance_pc().execute(
                    opcode,
                    operand_nibble(self.current()),
                ),
                None => self,
            }
        }
    }

    /// What one step reports: the byte that encodes no instruction, or else
    /// whether the machine is halted after the step.
    pub open spec fn outcome(self) -> Result<bool, EaterError> {
        if !self.halt && opcode_of(self.current()) is None {
            Err(EaterError::UnknownOpcode(self.current()))
        } else {
            Ok(self.step().halt)
        }
    }

    /// The machine after `n` instructions.
    pub open spec fn after(self, n: nat) -> MachineState
        decreases n,
    {
        if n == 0 {
            self
        } else {
            self.after((n - 1) as nat).step()
        }
    }
}

/// What an instruction leaves alone. Only a store writes memory; only
/// addition and subtraction write the flags; only the two loads, addition
/// and subtraction write the accumulator; only the jumps write the program
/// counter; only output emits; only halt sets the halt latch, and nothing
/// clears it.
pub proof fn lemma_execute_frame(m: MachineState, opcode: Opcode, x: u8)
    ensures
        opcode != Opcode::Sta ==> m.execute(opcode, x).mem == m.mem,
        opcode != Opcode::Add && opcode != Opcode::Sub ==> m.execute(opcode, x).flags == m.flags,
        opcode != Opcode::Lda && opcode != Opcode::Ldi && opcode != Opcode::Add && opcode
            != Opcode::Sub ==> m.execute(opcode, x).a == m.a,
        opcode != Opcode::Jmp && opcode != Opcode::Jc && opcode != Opcode::Jz ==> m.execute(
            opcode,
            x,
        ).pc == m.pc,
        opcode != Opcode::Out ==> m.execute(opcode, x).out == m.out,
        opcode != Opcode::Hlt ==> m.execute(opcode, x).halt == m.halt,
        m.halt ==> m.execute(opcode, x).halt,
{
}

/// A stopped machine does not move: a halted one reports that it is halted,
/// a stuck one the byte at which it is stuck.
pub proof fn lemma_stopped_step(m: MachineState)
    requires
        m.stopped(),
    ensures
        m.step() == m,
        m.halt ==> m.outcome() == Ok::<bool, EaterError>(true),
        !m.halt ==> m.outcome() == Err::<bool, EaterError>(EaterError::UnknownOpcode(m.current())),
{
    reveal(MachineState::step);
}

/// A stopped machine never changes again: however many steps follow, it
/// stays as it is. In particular nothing moves once the machine has halted.
pub proof fn lemma_stopped_is_fixed(m: MachineState, n: nat)
    requires
        m.stopped(),
    ensures
        m.after(n) == m,
    decreases n,
{
    if n > 0 {
        lemma_stopped_is_fixed(m, (n - 1) as nat);
        lemma_stopped_step(m);
    }
}

/// Once the machine has halted, any number of further steps report that it
/// is halted and change nothing: memory, accumulator, flags, program counter
/// and output stay as they are.
pub proof fn lemma_halted_is_frozen(m: MachineState, n: nat)
    requires
        m.halt,
    ensures
        m.after(n) == m,
        m.after(n).outcome() == Ok::<bool, EaterError>(true),
{
    lemma_stopped_is_fixed(m, n);
    lemma_stopped_step(m);
}

/// Running `j` instructions and then `k` more is running `j + k`.
pub proof fn lemma_after_add(m: MachineState, j: nat, k: nat)
    ensures
        m.after(j).after(k) == m.after(j + k),
    decreases k,
{
    if k > 0 {
        lemma_after_add(m, j, (k - 1) as nat);
    }
}

/// Once stopped, always stopped, and in the same state.
pub proof fn lemma_stopped_stays(m: MachineState, j: nat, k: nat)
    requires
        m.after(j).stopped(),
        j <= k,
    ensures
        m.after(k) == m.after(j),
{
    lemma_after_add(m, j, (k - j) as nat);
    lemma_stopped_is_fixed(m.after(j), (k - j) as nat);
}

/// The program counter stays below 16 and the memory stays sixteen cells
/// long through every instruction.
pub proof fn lemma_step_wf(m: MachineState)
    requires
        m.wf(),
    ensures
        m.step().wf(),
{
    reveal(MachineState::step);
}

/// The program counter stays below 16 and the memory stays sixteen cells
/// long through any number of instructions.
pub proof fn lemma_after_wf(m: MachineState, n: nat)
    requires
        m.wf(),
    ensures
        m.after(n).wf(),
    decreases n,
{
    if n > 0 {
        lemma_after_wf(m, (n - 1) as nat);
        lemma_step_wf(m.after((n - 1) as nat));
    }
}

} // verus!
