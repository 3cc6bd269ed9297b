//! The phase-accurate simulator. One instruction takes up to five clock
//! phases: latch the program counter, fetch, and three phases of execution.
//! Each call of [`EaterSim::step`] advances the machine by one phase.

use vstd::prelude::*;
use crate::alu::{alu_add, alu_sub};
use crate::cpu::{image_of, Cpu};
use crate::cycle::{EaterCycle, Inst3, Inst4, Inst5};
use crate::error::EaterError;
use crate::flags::Flags;
use crate::isa::low_nibble;
use crate::machine::MachineState;
use crate::phases::{lemma_stopped_advance, lemma_stopped_stays, SimState};

verus! {

/// A simulator that is stopped after `m` phases and after `n` phases is in
/// the same state after both.
proof fn lemma_stops_at(s: SimState, m: nat, n: nat)
    requires
        s.after(m).stopped(),
        s.after(n).stopped(),
    ensures
        s.after(m) == s.after(n),
{
    if m <= n {
        lemma_stopped_stays(s, m, n);
    } else {
        lemma_stopped_stays(s, n, m);
    }
}

/// If the `m`-th phase reports that the simulator is halted or stuck, the
/// simulator is in the same state after any `n >= m` phases, and the `n`-th
/// phase reports the same.
proof fn lemma_run_for_stopped(s: SimState, m: nat, n: nat)
    requires
        0 < m <= n,
        s.after((m - 1) as nat).outcome() != Ok::<bool, EaterError>(false),
    ensures
        s.after(n) == s.after(m),
        s.after((n - 1) as nat).outcome() == s.after((m - 1) as nat).outcome(),
{
    let before = s.after((m - 1) as nat);
    assert(s.after(m) == before.advance());
    if before.stopped() {
        lemma_stopped_advance(before);
        lemma_stopped_stays(s, (m - 1) as nat, (n - 1) as nat);
        lemma_stopped_stays(s, (m - 1) as nat, n);
    } else {
        lemma_stopped_advance(s.after(m));
        lemma_stopped_stays(s, m, n);
        if m < n {
            lemma_stopped_stays(s, m, (n - 1) as nat);
        }
    }
}

/// The phase-accurate simulator.
#[derive(Debug)]
pub struct EaterSim {
    cpu: Cpu,
    cycle: EaterCycle,
    out: Vec<u8>,
}

impl View for EaterSim {
    type V = SimState;

    closed spec fn view(&self) -> SimState {
        SimState { core: self.cpu.state(self.out@), cycle: self.cycle }
    }
}

impl Default for EaterSim {
    fn default() -> (sim: EaterSim)
        ensures
            sim@ == SimState::reset(),
    {
        EaterSim::new()
    }
}

impl EaterSim {
    /// A simulator with everything zero, about to latch the program counter.
    pub fn new() -> (sim: EaterSim)
        ensures
            sim@ == SimState::reset(),
    {
        EaterSim { cpu: Cpu::new(), cycle: EaterCycle::LatchPC, out: Vec::new() }
    }

    /// Replaces the memory by a program image of exactly 16 bytes. An image
    /// of any other length is refused and changes nothing.
    pub fn load(&mut self, mem: &[u8]) -> (outcome: Result<(), EaterError>)
        ensures
            mem@.len() == 16 ==> outcome is Ok && final(self)@ == old(self)@.with_memory(mem@),
            mem@.len() != 16 ==> outcome == Err::<(), EaterError>(
                EaterError::ImageLength(mem@.len() as usize),
            ) && final(self)@ == old(self)@,
            final(self)@.wf(),
    {
        proof {
            use_type_invariant(&self.cpu);
        }
        match image_of(mem) {
            Ok(image) => {
                self.cpu.mem = image;
                Ok(())
            },
            Err(error) => Err(error),
        }
    }

    /// Advances the simulator by one phase and reports whether it is halted.
    ///
    /// A halted simulator stays exactly as it is and reports `Ok(true)`. A
    /// fetch of a byte that encodes no instruction changes nothing and
    /// returns the byte in the error. The program counter is below 16 after
    /// every call.
    pub fn step(&mut self) -> (outcome: Result<bool, EaterError>)
        ensures
            final(self)@ == old(self)@.advance(),
            outcome == old(self)@.outcome(),
            final(self)@.wf(),
            final(self)@.core.pc < 16,
            old(self)@.core.halt ==> final(self)@ == old(self)@ && outcome == Ok::<bool, EaterError>(
                true,
            ),
    {
        proof {
            use_type_invariant(&self.cpu);
            reveal(SimState::advance);
        }
        if self.cpu.halt {
            return Ok(true);
        }
        match self.cycle {
            EaterCycle::LatchPC => {
                self.cycle = EaterCycle::Fetch(self.cpu.pc);
            },
            EaterCycle::Fetch(pc) => {
                let addr: usize = low_nibble(pc) as usize;
                let inst = match Inst3::decode(self.cpu.mem[addr]) {
                    Ok(inst) => inst,
                    Err(error) => {
                        return Err(error);
                    },
                };
                self.cpu.pc = low_nibble(self.cpu.pc + 1);
                self.cycle = EaterCycle::Execute3(inst);
            },
            EaterCycle::Execute3(inst) => {
                let next = match inst {
                    Inst3::Nop => Inst4::Nop,
                    Inst3::Lda(addr) => Inst4::Lda(addr),
                    Inst3::Add(addr) => Inst4::Add(addr),
                    Inst3::Sub(addr) => Inst4::Sub(addr),
                    Inst3::Sta(addr) => Inst4::Sta(addr),
                    Inst3::Ldi(imm) => {
                        self.cpu.a = imm;
                        Inst4::Ldi
                    },
                    Inst3::Jmp(pc) => {
                        self.cpu.pc = low_nibble(pc);
                        Inst4::Jmp
                    },
                    Inst3::Jc(pc) => {
                        if self.cpu.flags.is_carry() {
                            self.cpu.pc = low_nibble(pc);
                        }
                        Inst4::Jc
                    },
                    Inst3::Jz(pc) => {
                        if self.cpu.flags.is_zero() {
                            self.cpu.pc = low_nibble(pc);
                        }
                        Inst4::Jz
                    },
                    Inst3::Out => {
                        self.out.push(self.cpu.a);
                        Inst4::Out
                    },
                    Inst3::Hlt => {
                        self.cpu.halt = true;
                        return Ok(true);
                    },
                };
                self.cycle = EaterCycle::Execute4(next);
            },
            EaterCycle::Execute4(inst) => {
                let next = match inst {
                    Inst4::Nop => Inst5::Nop,
                    Inst4::Lda(addr) => {
                        let addr: usize = low_nibble(addr) as usize;
                        self.cpu.a = self.cpu.mem[addr];
                        Inst5::Lda
                    },
                    Inst4::Add(addr) => {
                        let addr: usize = low_nibble(addr) as usize;
                        Inst5::Add(self.cpu.mem[addr])
                    },
                    Inst4::Sub(addr) => {
                        let addr: usize = low_nibble(addr) as usize;
                        Inst5::Sub(self.cpu.mem[addr])
                    },
                    Inst4::Sta(addr) => {
                        let addr: usize = low_nibble(addr) as usize;
                        self.cpu.mem[addr] = self.cpu.a;
                        Inst5::Sta
                    },
                    Inst4::Ldi => Inst5::Ldi,
                    Inst4::Jmp => Inst5::Jmp,
                    Inst4::Jc => Inst5::Jc,
                    Inst4::Jz => Inst5::Jz,
                    Inst4::Out => Inst5::Out,
                };
                self.cycle = EaterCycle::Execute5(next);
            },
            EaterCycle::Execute5(inst) => {
                match inst {
                    Inst5::Add(b) => {
                        let (a, flags) = alu_add(self.cpu.a, b);
                        self.cpu.a = a;
                        self.cpu.flags = flags;
                    },
                    Inst5::Sub(b) => {
                        let (a, flags) = alu_sub(self.cpu.a, b);
                        self.cpu.a = a;
                        self.cpu.flags = flags;
                    },
                    _ => {},
                }
                self.cycle = EaterCycle::LatchPC;
            },
        }
        Ok(self.cpu.halt)
    }

    /// Runs the simulator until it stops: until it has halted, or is stuck
    /// at a byte that encodes no instruction, which is returned in the
    /// error.
    ///
    /// The program must stop: on one that never does, there is nothing to
    /// return. [`EaterSim::run_for`] runs any program, for a bounded number
    /// of phases.
    pub fn run(&mut self) -> (outcome: Result<(), EaterError>)
        requires
            exists|n: nat| old(self)@.after(n).stopped(),
        ensures
            final(self)@.stopped(),
            forall|n: nat| old(self)@.after(n).stopped() ==> final(self)@ == old(self)@.after(n),
            outcome == match final(self)@.fault() {
                Some(byte) => Err::<(), EaterError>(EaterError::UnknownOpcode(byte)),
                None => Ok(()),
            },
            final(self)@.wf(),
    {
        let ghost start = self@;
        let ghost bound = choose|n: nat| start.after(n).stopped();
        let ghost mut done: nat = 0;
        loop
            invariant
                start == old(self)@,
                self@ == start.after(done),
                start.after(bound).stopped(),
                done <= bound,
            decreases bound - done,
        {
            let ghost before = self@;
            match self.step() {
                Ok(true) => {
                    proof {
                        assert(self@ == start.after(done + 1));
                        assert forall|n: nat| start.after(n).stopped() implies self@ == start.after(
                            n,
                        ) by {
                            lemma_stops_at(start, done + 1, n);
                        }
                    }
                    return Ok(());
                },
                Ok(false) => {
                    proof {
                        assert(!before.stopped());
                        done = done + 1;
                    }
                },
                Err(error) => {
                    proof {
                        lemma_stopped_advance(before);
                        assert forall|n: nat| start.after(n).stopped() implies self@ == start.after(
                            n,
                        ) by {
                            lemma_stops_at(start, done, n);
                        }
                    }
                    return Err(error);
                },
            }
        }
    }

    /// Runs the simulator for `budget` phases, or until it stops if that
    /// comes first, and reports what the last phase reported: whether the
    /// simulator is halted, or the byte at which it is stuck.
    pub fn run_for(&mut self, budget: u64) -> (outcome: Result<bool, EaterError>)
        ensures
            final(self)@ == old(self)@.after(budget as nat),
            outcome == (if budget == 0 {
                Ok::<bool, EaterError>(old(self)@.core.halt)
            } else {
                old(self)@.after((budget - 1) as nat).outcome()
            }),
            final(self)@.wf(),
    {
        proof {
            use_type_invariant(&self.cpu);
        }
        let ghost start = self@;
        let mut outcome: Result<bool, EaterError> = Ok(self.cpu.halt);
        let mut done: u64 = 0;
        while done < budget
            invariant
                start == old(self)@,
                done <= budget,
                self@ == start.after(done as nat),
                self@.wf(),
                outcome == (if done == 0 {
                    Ok::<bool, EaterError>(start.core.halt)
                } else {
                    start.after((done - 1) as nat).outcome()
                }),
            decreases budget - done,
        {
            outcome = self.step();
            done = done + 1;
            match outcome {
                Ok(false) => {},
                _ => {
                    proof {
                        lemma_run_for_stopped(start, done as nat, budget as nat);
                    }
                    return outcome;
                },
            }
        }
        outcome
    }

    /// The program counter.
    pub fn pc(&self) -> (pc: u8)
        ensures
            pc == self@.core.pc,
            pc < 16,
    {
        proof {
            use_type_invariant(&self.cpu);
        }
        self.cpu.pc
    }

    /// The accumulator.
    pub fn a(&self) -> (a: u8)
        ensures
            a == self@.core.a,
    {
        self.cpu.a
    }

    /// The status flags.
    pub fn flags(&self) -> (flags: Flags)
        ensures
            flags == self@.core.flags,
    {
        self.cpu.flags
    }

    /// A copy of the memory.
    pub fn mem(&self) -> (mem: [u8; 16])
        ensures
            mem@ == self@.core.mem,
    {
        self.cpu.mem
    }

    /// The phase that the next step performs.
    pub fn cycle(&self) -> (cycle: EaterCycle)
        ensures
            cycle == self@.cycle,
    {
        self.cycle
    }

    /// Whether the simulator has halted.
    pub fn halt(&self) -> (halt: bool)
        ensures
            halt == self@.core.halt,
    {
        self.cpu.halt
    }

    /// The values emitted and not yet taken, oldest first.
    pub fn output(&self) -> (out: &[u8])
        ensures
            out@ == self@.core.out,
    {
        self.out.as_slice()
    }

    /// Takes the emitted values out of the simulator, oldest first, and
    /// leaves it with none.
    pub fn take_output(&mut self) -> (out: Vec<u8>)
        ensures
            out@ == old(self)@.core.out,
            final(self)@ == (SimState {
                core: MachineState { out: Seq::empty(), ..old(self)@.core },
                ..old(self)@
            }),
    {
        let mut out: Vec<u8> = Vec::new();
        core::mem::swap(&mut self.out, &mut out);
        out
    }

    /// Overwrites the accumulator.
    pub fn set_a(&mut self, a: u8)
        ensures
            final(self)@ == (SimState { core: MachineState { a, ..old(self)@.core }, ..old(self)@ }),
    {
        proof {
            use_type_invariant(&self.cpu);
        }
        self.cpu.a = a;
    }

    /// Overwrites the status flags.
    pub fn set_flags(&mut self, flags: Flags)
        ensures
            final(self)@ == (SimState {
                core: MachineState { flags, ..old(self)@.core },
                ..old(self)@
            }),
    {
        proof {
            use_type_invariant(&self.cpu);
        }
        self.cpu.flags = flags;
    }
}

} // verus!
