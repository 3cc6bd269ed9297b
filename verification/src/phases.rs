//! What each phase does to the simulator, and what holds of every run of
//! phases.

use vstd::prelude::*;
use crate::alu::{add_spec, sub_spec};
use crate::cycle::{EaterCycle, Inst3, Inst4, Inst5};
use crate::error::EaterError;
use crate::isa::{opcode_of, operand_nibble, Opcode};
use crate::machine::MachineState;

verus! {

/// The state of the simulator: the machine, and the phase that comes next.
pub struct SimState {
    /// What a program can observe.
    pub core: MachineState,
    /// The phase that the next step performs.
    pub cycle: EaterCycle,
}

impl SimState {
    /// The machine is well formed, whatever the phase.
    pub open spec fn wf(self) -> bool {
        self.core.wf()
    }

    /// The simulator as it is built: a zeroed machine about to latch.
    pub open spec fn reset() -> SimState {
        SimState { core: MachineState::reset(), cycle: EaterCycle::LatchPC }
    }

    /// The simulator with its memory replaced by a program image.
    pub open spec fn with_memory(self, image: Seq<u8>) -> SimState {
        SimState { core: self.core.with_memory(image), ..self }
    }

    /// The byte that a fetch from the latched address `pc` reads.
    pub open spec fn fetched(self, pc: u8) -> u8 {
        self.core.mem[operand_nibble(pc) as int]
    }

    /// The byte at which the simulator is stuck, if it is: it is about to
    /// fetch a byte that encodes no instruction.
    pub open spec fn fault(self) -> Option<u8> {
        match self.cycle {
            EaterCycle::Fetch(pc) if !self.core.halt && opcode_of(self.fetched(pc)) is None => Some(
                self.fetched(pc),
            ),
            _ => None,
        }
    }

    /// Whether the simulator can go no further: it has halted or is stuck.
    pub open spec fn stopped(self) -> bool {
        self.core.halt || self.fault() is Some
    }

    /// Fetch: read the instruction at the latched address, move the program
    /// counter on by one, wrapping from 15 to 0, and decode. A byte that
    /// encodes no instruction leaves everything as it is.
    pub open spec fn fetch(self, pc: u8) -> SimState {
        match Inst3::decode_spec(self.fetched(pc)) {
            Some(inst) => SimState {
                core: self.core.advance_pc(),
                cycle: EaterCycle::Execute3(inst),
            },
            None => self,
        }
    }

    /// First phase of execution: literals are loaded, jumps are taken, the
    /// accumulator is emitted, the machine is halted. A halt ends the
    /// instruction here; anything that addresses memory passes through.
    /// The program counter is four bits wide and takes the low nibble of a
    /// jump target.
    pub open spec fn execute3(self, inst: Inst3) -> SimState {
        let core = self.core;
        match inst {
            Inst3::Nop => SimState { cycle: EaterCycle::Execute4(Inst4::Nop), ..self },
            Inst3::Lda(x) => SimState { cycle: EaterCycle::Execute4(Inst4::Lda(x)), ..self },
            Inst3::Add(x) => SimState { cycle: EaterCycle::Execute4(Inst4::Add(x)), ..self },
            Inst3::Sub(x) => SimState { cycle: EaterCycle::Execute4(Inst4::Sub(x)), ..self },
            Inst3::Sta(x) => SimState { cycle: EaterCycle::Execute4(Inst4::Sta(x)), ..self },
            Inst3::Ldi(x) => SimState {
                core: core.execute(Opcode::Ldi, x),
                cycle: EaterCycle::Execute4(Inst4::Ldi),
            },
            Inst3::Jmp(x) => SimState {
                core: core.execute(Opcode::Jmp, operand_nibble(x)),
                cycle: EaterCycle::Execute4(Inst4::Jmp),
            },
            Inst3::Jc(x) => SimState {
                core: core.execute(Opcode::Jc, operand_nibble(x)),
                cycle: EaterCycle::Execute4(Inst4::Jc),
            },
            Inst3::Jz(x) => SimState {
                core: core.execute(Opcode::Jz, operand_nibble(x)),
                cycle: EaterCycle::Execute4(Inst4::Jz),
            },
            Inst3::Out => SimState {
                core: core.execute(Opcode::Out, 0),
                cycle: EaterCycle::Execute4(Inst4::Out),
            },
            Inst3::Hlt => SimState { core: core.execute(Opcode::Hlt, 0), ..self },
        }
    }

    /// Second phase of execution: the operand of an instruction that
    /// addresses memory is cut to an address. A load and a store are done
    /// here; addition and subtraction carry the byte they read forward.
    pub open spec fn execute4(self, inst: Inst4) -> SimState {
        let core = self.core;
        match inst {
            Inst4::Nop => SimState { cycle: EaterCycle::Execute5(Inst5::Nop), ..self },
            Inst4::Lda(x) => SimState {
                core: core.execute(Opcode::Lda, operand_nibble(x)),
                cycle: EaterCycle::Execute5(Inst5::Lda),
            },
            Inst4::Add(x) => SimState {
                cycle: EaterCycle::Execute5(Inst5::Add(core.mem[operand_nibble(x) as int])),
                ..self
            },
            Inst4::Sub(x) => SimState {
                cycle: EaterCycle::Execute5(Inst5::Sub(core.mem[operand_nibble(x) as int])),
                ..self
            },
            Inst4::Sta(x) => SimState {
                core: core.execute(Opcode::Sta, operand_nibble(x)),
                cycle: EaterCycle::Execute5(Inst5::Sta),
            },
            Inst4::Ldi => SimState { cycle: EaterCycle::Execute5(Inst5::Ldi), ..self },
            Inst4::Jmp => SimState { cycle: EaterCycle::Execute5(Inst5::Jmp), ..self },
            Inst4::Jc => SimState { cycle: EaterCycle::Execute5(Inst5::Jc), ..self },
            Inst4::Jz => SimState { cycle: EaterCycle::Execute5(Inst5::Jz), ..self },
            Inst4::Out => SimState { cycle: EaterCycle::Execute5(Inst5::Out), ..self },
        }
    }

    /// Third phase of execution: addition and subtraction write the
    /// accumulator and the flags; nothing else happens. The next phase
    /// latches again.
    pub open spec fn execute5(self, inst: Inst5) -> SimState {
        let core = self.core;
        match inst {
            Inst5::Add(b) => SimState {
                core: MachineState { a: add_spec(core.a, b).0, flags: add_spec(core.a, b).1, ..core },
                cycle: EaterCycle::LatchPC,
            },
            Inst5::Sub(b) => SimState {
                core: MachineState { a: sub_spec(core.a, b).0, flags: sub_spec(core.a, b).1, ..core },
                cycle: EaterCycle::LatchPC,
            },
            _ => SimState { cycle: EaterCycle::LatchPC, ..self },
        }
    }

    /// The simulator after one phase. A halted simulator stays as it is.
    #[verifier::opaque]
    pub open spec fn advance(self) -> SimState {
        if self.core.halt {
            self
        } else {
            match self.cycle {
                EaterCycle::LatchPC => SimState { cycle: EaterCycle::Fetch(self.core.pc), ..self },
                EaterCycle::Fetch(pc) => self.fetch(pc),
                EaterCycle::Execute3(inst) => self.execute3(inst),
                EaterCycle::Execute4(inst) => self.execute4(inst),
                EaterCycle::Execute5(inst) => self.execute5(inst),
            }
        }
    }

    /// What one phase reports: the byte at which the simulator is stuck, or
    /// else whether it is halted after the phase.
    pub open spec fn outcome(self) -> Result<bool, EaterError> {
        match self.fault() {
            Some(byte) => Err(EaterError::UnknownOpcode(byte)),
            None => Ok(self.advance().core.halt),
        }
    }

    /// The simulator after `n` phases.
    pub open spec fn after(self, n: nat) -> SimState
        decreases n,
    {
        if n == 0 {
            self
        } else {
            self.after((n - 1) as nat).advance()
        }
    }
}

/// What a simulator that is about to latch does next. This lemma and the
/// four after it give one phase each, for proofs that follow a program phase
/// by phase.
pub proof fn lemma_latch(t: SimState)
    requires
        !t.core.halt,
        t.cycle == EaterCycle::LatchPC,
    ensures
        t.advance() == (SimState { cycle: EaterCycle::Fetch(t.core.pc), ..t }),
{
    reveal(SimState::advance);
}

/// What a simulator that is about to fetch does next.
pub proof fn lemma_fetch(t: SimState, pc: u8)
    requires
        !t.core.halt,
        t.cycle == EaterCycle::Fetch(pc),
    ensures
        t.advance() == t.fetch(pc),
{
    reveal(SimState::advance);
}

/// What a simulator does in the first phase of execution.
pub proof fn lemma_execute3(t: SimState, inst: Inst3)
    requires
        !t.core.halt,
        t.cycle == EaterCycle::Execute3(inst),
    ensures
        t.advance() == t.execute3(inst),
{
    reveal(SimState::advance);
}

/// What a simulator does in the second phase of execution.
pub proof fn lemma_execute4(t: SimState, inst: Inst4)
    requires
        !t.core.halt,
        t.cycle == EaterCycle::Execute4(inst),
    ensures
        t.advance() == t.execute4(inst),
{
    reveal(SimState::advance);
}

/// What a simulator does in the third phase of execution.
pub proof fn lemma_execute5(t: SimState, inst: Inst5)
    requires
        !t.core.halt,
        t.cycle == EaterCycle::Execute5(inst),
    ensures
        t.advance() == t.execute5(inst),
{
    reveal(SimState::advance);
}

/// What a phase leaves alone. The flags change only in the third phase of
/// execution of an addition or a subtraction; memory only in the second
/// phase of a store; the accumulator only where a load, an addition or a
/// subtraction writes it; the program counter only in a fetch and in the
/// first phase of a jump; output is emitted only in the first phase of an
/// output instruction; and the halt latch, once set, stays set.
pub proof fn lemma_advance_frame(s: SimState)
    ensures
        s.advance().core.flags != s.core.flags ==> {
            ||| s.cycle matches EaterCycle::Execute5(Inst5::Add(_))
            ||| s.cycle matches EaterCycle::Execute5(Inst5::Sub(_))
        },
        s.advance().core.mem != s.core.mem ==> s.cycle matches EaterCycle::Execute4(Inst4::Sta(_)),
        s.advance().core.a != s.core.a ==> {
            ||| s.cycle matches EaterCycle::Execute3(Inst3::Ldi(_))
            ||| s.cycle matches EaterCycle::Execute4(Inst4::Lda(_))
            ||| s.cycle matches EaterCycle::Execute5(Inst5::Add(_))
            ||| s.cycle matches EaterCycle::Execute5(Inst5::Sub(_))
        },
        s.advance().core.pc != s.core.pc ==> {
            ||| s.cycle is Fetch
            ||| s.cycle matches EaterCycle::Execute3(Inst3::Jmp(_))
            ||| s.cycle matches EaterCycle::Execute3(Inst3::Jc(_))
            ||| s.cycle matches EaterCycle::Execute3(Inst3::Jz(_))
        },
        s.advance().core.out != s.core.out ==> s.cycle == EaterCycle::Execute3(Inst3::Out),
        s.core.halt ==> s.advance().core.halt,
{
    reveal(SimState::advance);
}

/// A stopped simulator does not move: a halted one reports that it is
/// halted, a stuck one the byte at which it is stuck.
pub proof fn lemma_stopped_advance(s: SimState)
    requires
        s.stopped(),
    ensures
        s.advance() == s,
        s.core.halt ==> s.outcome() == Ok::<bool, EaterError>(true),
        s.fault() matches Some(byte) ==> s.outcome() == Err::<bool, EaterError>(
            EaterError::UnknownOpcode(byte),
        ),
{
    reveal(SimState::advance);
}

/// A stopped simulator never changes again: however many phases follow, it
/// stays as it is. In particular nothing moves once the machine has halted.
pub proof fn lemma_stopped_is_fixed(s: SimState, n: nat)
    requires
        s.stopped(),
    ensures
        s.after(n) == s,
    decreases n,
{
    if n > 0 {
        lemma_stopped_is_fixed(s, (n - 1) as nat);
        lemma_stopped_advance(s);
    }
}

/// Once the simulator has halted, any number of further phases report that
/// it is halted and change nothing: memory, accumulator, flags, program
/// counter, output and phase stay as they are.
pub proof fn lemma_halted_is_frozen(s: SimState, n: nat)
    requires
        s.core.halt,
    ensures
        s.after(n) == s,
        s.after(n).outcome() == Ok::<bool, EaterError>(true),
{
    lemma_stopped_is_fixed(s, n);
    lemma_stopped_advance(s);
}

/// Running `m` phases and then `n` more is running `m + n` phases.
pub proof fn lemma_after_add(s: SimState, m: nat, n: nat)
    ensures
        s.after(m).after(n) == s.after(m + n),
    decreases n,
{
    if n > 0 {
        lemma_after_add(s, m, (n - 1) as nat);
    }
}

/// Once stopped, always stopped, and in the same state.
pub proof fn lemma_stopped_stays(s: SimState, m: nat, n: nat)
    requires
        s.after(m).stopped(),
        m <= n,
    ensures
        s.after(n) == s.after(m),
{
    lemma_after_add(s, m, (n - m) as nat);
    lemma_stopped_is_fixed(s.after(m), (n - m) as nat);
}

/// The program counter stays below 16 and the memory stays sixteen cells
/// long through every phase.
pub proof fn lemma_advance_wf(s: SimState)
    requires
        s.wf(),
    ensures
        s.advance().wf(),
{
    reveal(SimState::advance);
}

/// The program counter stays below 16 and the memory stays sixteen cells
/// long through any number of phases.
pub proof fn lemma_after_wf(s: SimState, n: nat)
    requires
        s.wf(),
    ensures
        s.after(n).wf(),
    decreases n,
{
    if n > 0 {
        lemma_after_wf(s, (n - 1) as nat);
        lemma_advance_wf(s.after((n - 1) as nat));
    }
}

} // verus!
