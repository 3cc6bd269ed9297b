//! The simulator and the interpreter agree: five phases of the one are one
//! instruction of the other, and a program that stops on one stops on the
//! other in the same state.

use vstd::prelude::*;
use crate::cycle::{EaterCycle, Inst3, Inst4};
use crate::isa::{opcode_of, operand_nibble, Opcode};
use crate::machine;
use crate::machine::MachineState;
use crate::phases;
use crate::phases::SimState;

verus! {

/// Whether the simulator stands between two instructions: it is about to
/// latch the program counter, or it has halted, or it is stuck at the byte
/// under the program counter.
pub open spec fn between_instructions(s: SimState) -> bool {
    &&& s.wf()
    &&& {
        ||| s.core.halt
        ||| s.cycle == EaterCycle::LatchPC
        ||| s.cycle == EaterCycle::Fetch(s.core.pc) && opcode_of(s.core.current()) is None
    }
}

/// The instruction that is in its first phase of execution, and its
/// operand as the later phases use it.
spec fn in_flight(inst: Inst3) -> (Opcode, u8) {
    match inst {
        Inst3::Nop => (Opcode::Nop, 0),
        Inst3::Lda(x) => (Opcode::Lda, operand_nibble(x)),
        Inst3::Add(x) => (Opcode::Add, operand_nibble(x)),
        Inst3::Sub(x) => (Opcode::Sub, operand_nibble(x)),
        Inst3::Sta(x) => (Opcode::Sta, operand_nibble(x)),
        Inst3::Ldi(x) => (Opcode::Ldi, x),
        Inst3::Jmp(x) => (Opcode::Jmp, operand_nibble(x)),
        Inst3::Jc(x) => (Opcode::Jc, operand_nibble(x)),
        Inst3::Jz(x) => (Opcode::Jz, operand_nibble(x)),
        Inst3::Out => (Opcode::Out, 0),
        Inst3::Hlt => (Opcode::Hlt, 0),
    }
}

/// The second and third phase of execution together: a load, an addition,
/// a subtraction and a store do their work on the addressed cell, every
/// other instruction leaves the machine alone, and the simulator is about
/// to latch again.
proof fn lemma_later_phases(t: SimState, inst: Inst4)
    requires
        !t.core.halt,
        t.cycle == EaterCycle::Execute4(inst),
    ensures
        t.advance().advance().cycle == EaterCycle::LatchPC,
        t.advance().advance().core == (match inst {
            Inst4::Lda(x) => t.core.execute(Opcode::Lda, operand_nibble(x)),
            Inst4::Add(x) => t.core.execute(Opcode::Add, operand_nibble(x)),
            Inst4::Sub(x) => t.core.execute(Opcode::Sub, operand_nibble(x)),
            Inst4::Sta(x) => t.core.execute(Opcode::Sta, operand_nibble(x)),
            _ => t.core,
        }),
{
    let t1 = t.advance();
    phases::lemma_execute4(t, inst);
    phases::lemma_execute5(t1, t1.cycle->Execute5_0);
}

/// The three phases of execution together do to the machine what the
/// instruction does, and leave the simulator halted or about to latch.
proof fn lemma_execute_phases(t: SimState, inst: Inst3)
    requires
        !t.core.halt,
        t.cycle == EaterCycle::Execute3(inst),
    ensures
        t.after(3).core == t.core.execute(in_flight(inst).0, in_flight(inst).1),
        t.after(3).core.halt || t.after(3).cycle == EaterCycle::LatchPC,
{
    let t1 = t.advance();
    assert(t.after(3) == t1.advance().advance()) by {
        reveal_with_fuel(SimState::after, 4);
    }
    phases::lemma_execute3(t, inst);
    if inst == Inst3::Hlt {
        phases::lemma_stopped_advance(t1);
        phases::lemma_stopped_advance(t1.advance());
    } else {
        lemma_later_phases(t1, t1.cycle->Execute4_0);
    }
}

/// Decoding a byte puts in flight the instruction that the byte encodes,
/// with the low nibble as its operand.
proof fn lemma_decode_in_flight(m: MachineState, byte: u8)
    requires
        opcode_of(byte) is Some,
    ensures
        Inst3::decode_spec(byte) is Some,
        in_flight(Inst3::decode_spec(byte)->0).0 == opcode_of(byte)->0,
        m.execute(opcode_of(byte)->0, in_flight(Inst3::decode_spec(byte)->0).1) == m.execute(
            opcode_of(byte)->0,
            operand_nibble(byte),
        ),
{
}

/// Latch and fetch: two phases take a simulator that is about to latch to
/// the first phase of execution of the instruction under the program
/// counter, with the program counter moved on.
proof fn lemma_latch_and_fetch(s: SimState)
    requires
        s.wf(),
        !s.core.halt,
        s.cycle == EaterCycle::LatchPC,
        opcode_of(s.core.current()) is Some,
    ensures
        s.after(2) == (SimState {
            core: s.core.advance_pc(),
            cycle: EaterCycle::Execute3(Inst3::decode_spec(s.core.current())->0),
        }),
{
    let latched = s.advance();
    phases::lemma_latch(s);
    phases::lemma_fetch(latched, s.core.pc);
    assert(latched.fetched(s.core.pc) == s.core.current());
    assert(s.after(2) == latched.advance()) by {
        reveal_with_fuel(SimState::after, 3);
    }
}

/// A simulator that latches at a byte that encodes no instruction is stuck
/// one phase later, with its machine untouched.
proof fn lemma_latch_stuck(s: SimState)
    requires
        s.wf(),
        !s.core.halt,
        s.cycle == EaterCycle::LatchPC,
        opcode_of(s.core.current()) is None,
    ensures
        s.after(1) == (SimState { cycle: EaterCycle::Fetch(s.core.pc), ..s }),
        s.after(1).fault() == Some(s.core.current()),
{
    phases::lemma_latch(s);
    assert(s.advance().fetched(s.core.pc) == s.core.current());
    assert(s.after(1) == s.advance()) by {
        reveal_with_fuel(SimState::after, 2);
    }
}

/// One step of the interpreter on a machine that can go on.
proof fn lemma_step_executes(m: MachineState)
    requires
        !m.stopped(),
    ensures
        m.step() == m.advance_pc().execute(
            opcode_of(m.current())->0,
            operand_nibble(m.current()),
        ),
{
    reveal(MachineState::step);
}

/// Five phases are one instruction: a simulator that stands between two
/// instructions stands between two instructions again five phases later,
/// and its machine is then where one step of the interpreter takes it.
pub proof fn lemma_five_phases(s: SimState)
    requires
        between_instructions(s),
    ensures
        between_instructions(s.after(5)),
        s.after(5).core == s.core.step(),
{
    phases::lemma_after_wf(s, 5);
    if s.stopped() {
        phases::lemma_stopped_is_fixed(s, 5);
        machine::lemma_stopped_step(s.core);
    } else if opcode_of(s.core.current()) is None {
        lemma_latch_stuck(s);
        phases::lemma_stopped_stays(s, 1, 5);
        machine::lemma_stopped_step(s.core);
    } else {
        let fetched = s.after(2);
        lemma_latch_and_fetch(s);
        phases::lemma_after_add(s, 2, 3);
        lemma_execute_phases(fetched, Inst3::decode_spec(s.core.current())->0);
        lemma_decode_in_flight(fetched.core, s.core.current());
        lemma_step_executes(s.core);
    }
}

/// Five phases for every instruction: a simulator that stands between two
/// instructions has, after `5 * n` phases, the machine that the interpreter
/// has after `n` instructions.
pub proof fn lemma_phases_match_instructions(s: SimState, n: nat)
    requires
        between_instructions(s),
    ensures
        between_instructions(s.after(5 * n)),
        s.after(5 * n).core == s.core.after(n),
    decreases n,
{
    if n > 0 {
        let m = (n - 1) as nat;
        lemma_phases_match_instructions(s, m);
        lemma_five_phases(s.after(5 * m));
        phases::lemma_after_add(s, 5 * m, 5);
    }
}

/// Where the interpreter stops, the simulator stops. If the interpreter has
/// stopped after `n` instructions, a simulator that started between two
/// instructions on the same machine has stopped after `5 * n + 1` phases,
/// with the same memory, accumulator, flags, program counter, halt latch
/// and output; and it is stuck at a byte exactly when the interpreter is.
pub proof fn lemma_interpreter_stop(s: SimState, n: nat)
    requires
        between_instructions(s),
        s.core.after(n).stopped(),
    ensures
        s.after(5 * n + 1).stopped(),
        s.after(5 * n + 1).core == s.core.after(n),
        s.after(5 * n + 1).fault() == (if s.core.after(n).halt {
            None
        } else {
            Some(s.core.after(n).current())
        }),
{
    let t = s.after(5 * n);
    lemma_phases_match_instructions(s, n);
    phases::lemma_after_add(s, 5 * n, 1);
    if t.stopped() {
        phases::lemma_stopped_is_fixed(t, 1);
    } else {
        lemma_latch_stuck(t);
    }
}

/// Where the simulator stops, the interpreter stops. If a simulator that
/// started between two instructions has stopped after `k` phases, the
/// interpreter has stopped after `k` instructions on the same machine, with
/// the same memory, accumulator, flags, program counter, halt latch and
/// output.
pub proof fn lemma_simulator_stop(s: SimState, k: nat)
    requires
        between_instructions(s),
        s.after(k).stopped(),
    ensures
        s.core.after(k).stopped(),
        s.core.after(k) == s.after(k).core,
{
    lemma_phases_match_instructions(s, k);
    phases::lemma_stopped_stays(s, k, 5 * k);
}

/// The simulator and the interpreter run a program to the same end. Load
/// two fresh machines with the same 16-byte image: if the interpreter has
/// stopped after `n` instructions and the simulator after `k` phases, they
/// have stopped with the same memory, accumulator, flags, program counter,
/// halt latch and output. By the two lemmas above, one of them stops
/// exactly when the other does.
pub proof fn lemma_same_final_state(image: Seq<u8>, n: nat, k: nat)
    requires
        image.len() == 16,
        MachineState::reset().with_memory(image).after(n).stopped(),
        SimState::reset().with_memory(image).after(k).stopped(),
    ensures
        SimState::reset().with_memory(image).after(k).core == MachineState::reset().with_memory(
            image,
        ).after(n),
{
    let s = SimState::reset().with_memory(image);
    let m = MachineState::reset().with_memory(image);
    lemma_simulator_stop(s, k);
    if n <= k {
        machine::lemma_stopped_stays(m, n, k);
    } else {
        machine::lemma_stopped_stays(m, k, n);
    }
}

} // verus!
