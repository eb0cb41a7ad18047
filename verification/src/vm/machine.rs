//! The machine: a processor with its memory, and the fetch loop that drives
//! them.
//!
//! A cycle reads the word at the program counter, moves the program counter
//! to the next word and executes what it read. The machine runs until a halt
//! trap stops it or a fault aborts it; either state is final.

use crate::vm::bits::{spec_field, wrapping_sum};
use crate::vm::cpu::{result_view, Cpu, Effect};
use crate::vm::semantics::{
    after_input, execute, is_flag, lemma_execute_keeps_shape, EffectView, Fault,
};
use vstd::prelude::*;

verus! {

/// Whether a machine can execute instructions.
#[derive(Clone, Copy, Debug, PartialEq, Eq, Structural)]
pub enum RunState {
    /// The next cycle fetches and executes an instruction.
    Running,
    /// A halt trap has stopped the machine.
    Halted,
    /// A fault has aborted the machine.
    Faulted(Fault),
}

/// A machine as mathematics: ten registers, 65536 words of memory, and the
/// run state.
pub struct MachineView {
    pub regs: Seq<u16>,
    pub mem: Seq<u16>,
    pub state: RunState,
}

/// A machine after a cycle or a run, and what the host is asked to do.
pub struct Step {
    pub machine: MachineView,
    pub result: Result<EffectView, Fault>,
}

impl MachineView {
    /// Ten registers, 65536 words, and exactly one condition flag set.
    pub open spec fn wf(self) -> bool {
        &&& self.regs.len() == 10
        &&& self.mem.len() == 65536
        &&& is_flag(self.regs[Cpu::COND as int])
    }

    /// A machine that has just been switched on: registers in their initial
    /// state, zero in every word of memory, running.
    pub open spec fn initial() -> MachineView {
        MachineView {
            regs: Cpu::initial(),
            mem: Seq::new(65536, |i: int| 0u16),
            state: RunState::Running,
        }
    }

    /// The run state that an instruction's result leaves a running machine
    /// in: halted after a halt trap, aborted after a fault, running otherwise.
    pub open spec fn state_after(result: Result<EffectView, Fault>) -> RunState {
        match result {
            Ok(EffectView::Halt) => RunState::Halted,
            Ok(_) => RunState::Running,
            Err(fault) => RunState::Faulted(fault),
        }
    }

    /// One cycle. A running machine fetches the word at the program counter,
    /// moves the program counter on by one, modulo 65536, and executes the
    /// word. A halted machine stays as it is and reports the halt again; an
    /// aborted machine stays as it is and reports its fault again.
    pub open spec fn step(self) -> Step {
        match self.state {
            RunState::Halted => Step { machine: self, result: Ok(EffectView::Halt) },
            RunState::Faulted(fault) => Step { machine: self, result: Err(fault) },
            RunState::Running => {
                let pc = self.regs[Cpu::PC as int];
                let fetched = self.regs.update(Cpu::PC as int, wrapping_sum(pc, 1));
                let out = execute(fetched, self.mem, self.mem[pc as int]);
                Step {
                    machine: MachineView {
                        regs: out.regs,
                        mem: out.mem,
                        state: MachineView::state_after(out.result),
                    },
                    result: out.result,
                }
            },
        }
    }

    /// A run of at most `budget` cycles: it ends with the first cycle that
    /// asks something of the host or meets a fault, and with nothing asked
    /// when the budget is used up.
    pub open spec fn run(self, budget: nat) -> Step
        decreases budget,
    {
        if budget == 0 {
            Step { machine: self, result: Ok(EffectView::Nothing) }
        } else {
            let first = self.step();
            if first.result == Ok::<EffectView, Fault>(EffectView::Nothing) {
                first.machine.run((budget - 1) as nat)
            } else {
                first
            }
        }
    }
}

impl MachineView {
    /// A cycle and a run keep a machine well formed.
    pub proof fn lemma_run_keeps_shape(self, budget: nat)
        requires
            self.wf(),
        ensures
            self.step().machine.wf(),
            self.run(budget).machine.wf(),
        decreases budget,
    {
        let pc = self.regs[Cpu::PC as int];
        let fetched = self.regs.update(Cpu::PC as int, wrapping_sum(pc, 1));
        lemma_execute_keeps_shape(fetched, self.mem, self.mem[pc as int]);
        if budget > 0 {
            self.step().machine.lemma_run_keeps_shape((budget - 1) as nat);
        }
    }

    /// A machine is halted after a cycle exactly when it was halted before
    /// or the cycle executed a halt trap, and aborted exactly when it was
    /// aborted before or the cycle met a fault.
    pub proof fn lemma_final_states_entered(self)
        ensures
            self.step().machine.state == RunState::Halted <==> self.state == RunState::Halted || (
            self.state == RunState::Running && self.step().result == Ok::<EffectView, Fault>(
                EffectView::Halt,
            )),
            self.step().machine.state is Faulted <==> self.state is Faulted || (self.state
                == RunState::Running && self.step().result is Err),
            self.step().result matches Err(fault) ==> self.step().machine.state
                == RunState::Faulted(fault),
    {
    }

    /// A halted or aborted machine never changes again: every cycle and
    /// every run leaves it as it is, and reports the halt or the fault.
    pub proof fn lemma_final_states_stay(self, budget: nat)
        requires
            self.state != RunState::Running,
        ensures
            self.step().machine == self,
            self.run(budget).machine == self,
            self.state == RunState::Halted ==> self.step().result == Ok::<EffectView, Fault>(
                EffectView::Halt,
            ),
            self.state matches RunState::Faulted(fault) ==> self.step().result == Err::<
                EffectView,
                Fault,
            >(fault),
            budget > 0 ==> self.run(budget).result == self.step().result,
    {
    }

    /// A run stops at the first fault: when a cycle meets a fault, a run from
    /// the same machine ends with that cycle, and no run from the aborted
    /// machine executes anything more.
    pub proof fn lemma_fault_ends_run(self, budget: nat, later: nat)
        requires
            self.step().result is Err,
            budget > 0,
        ensures
            self.run(budget) == self.step(),
            self.step().machine.state is Faulted,
            self.step().machine.run(later).machine == self.step().machine,
    {
        self.lemma_final_states_entered();
        self.step().machine.lemma_final_states_stay(later);
    }

    /// Fetching the reserved opcode, 13, aborts a running machine: the cycle
    /// reports the invalid opcode and changes nothing but the program
    /// counter, which has moved past the word, and the run state.
    pub proof fn lemma_reserved_opcode_aborts(self)
        requires
            self.state == RunState::Running,
            spec_field(self.mem[self.regs[Cpu::PC as int] as int], 12, 4) == 13,
        ensures
            self.step().result == Err::<EffectView, Fault>(Fault::InvalidOpcode),
            self.step().machine == (MachineView {
                regs: self.regs.update(
                    Cpu::PC as int,
                    wrapping_sum(self.regs[Cpu::PC as int], 1),
                ),
                mem: self.mem,
                state: RunState::Faulted(Fault::InvalidOpcode),
            }),
    {
    }
}

/// A processor and its memory.
pub struct Machine {
    cpu: Cpu,
    mem: [u16; 65536],
    state: RunState,
}

impl View for Machine {
    type V = MachineView;

    closed spec fn view(&self) -> MachineView {
        MachineView { regs: self.cpu@, mem: self.mem@, state: self.state }
    }
}

impl Machine {
    /// A machine that has just been switched on.
    pub fn new() -> (machine: Machine)
        ensures
            machine@ == MachineView::initial(),
            machine@.wf(),
    {
        let machine = Machine { cpu: Cpu::new(), mem: [0; 65536], state: RunState::Running };
        assert(machine.mem@ =~= Seq::new(65536, |i: int| 0u16));
        machine
    }

    /// The run state.
    pub fn state(&self) -> (state: RunState)
        ensures
            state == self@.state,
    {
        self.state
    }

    /// What register `index` holds.
    pub fn register(&self, index: usize) -> (value: u16)
        requires
            index < 10,
        ensures
            value == self@.regs[index as int],
    {
        self.cpu.registers[index]
    }

    /// The word at `addr`.
    pub fn read(&self, addr: u16) -> (value: u16)
        ensures
            value == self@.mem[addr as int],
    {
        self.mem[addr as usize]
    }

    /// Puts `value` at `addr`.
    pub fn write(&mut self, addr: u16, value: u16)
        ensures
            final(self)@ == (MachineView {
                mem: old(self)@.mem.update(addr as int, value),
                ..old(self)@
            }),
            old(self)@.wf() ==> final(self)@.wf(),
    {
        self.mem[addr as usize] = value;
    }

    /// Moves the program counter to `addr`.
    pub fn set_pc(&mut self, addr: u16)
        ensures
            final(self)@ == (MachineView {
                regs: old(self)@.regs.update(Cpu::PC as int, addr),
                ..old(self)@
            }),
            old(self)@.wf() ==> final(self)@.wf(),
    {
        self.cpu.registers[Cpu::PC] = addr;
    }

    /// Takes a character that the host has read for a `GetChar` or
    /// `PromptChar` effect: register 0 receives it, zero-extended, and the
    /// flags follow it.
    pub fn receive_char(&mut self, byte: u8)
        ensures
            final(self)@ == (MachineView {
                regs: after_input(old(self)@.regs, byte),
                ..old(self)@
            }),
            old(self)@.wf() ==> final(self)@.wf(),
    {
        self.cpu.receive_char(byte);
    }

    /// One cycle of the fetch loop.
    pub fn step(&mut self) -> (result: Result<Effect, Fault>)
        ensures
            final(self)@ == old(self)@.step().machine,
            result_view(result) == old(self)@.step().result,
            old(self)@.wf() ==> final(self)@.wf(),
    {
        match self.state {
            RunState::Halted => {
                return Ok(Effect::Halt);
            },
            RunState::Faulted(fault) => {
                return Err(fault);
            },
            RunState::Running => {},
        }
        let pc = self.cpu.registers[Cpu::PC];
        let inst = self.mem[pc as usize];
        self.cpu.registers[Cpu::PC] = pc.wrapping_add(1);
        let result = self.cpu.exec_instruction(inst, &mut self.mem);
        match &result {
            Ok(Effect::Halt) => {
                self.state = RunState::Halted;
            },
            Ok(_) => {},
            Err(fault) => {
                self.state = RunState::Faulted(*fault);
            },
        }
        result
    }

    /// The fetch loop: runs cycles until one asks something of the host or
    /// meets a fault, `budget` cycles at most.
    pub fn exec(&mut self, budget: usize) -> (result: Result<Effect, Fault>)
        ensures
            final(self)@ == old(self)@.run(budget as nat).machine,
            result_view(result) == old(self)@.run(budget as nat).result,
            old(self)@.wf() ==> final(self)@.wf(),
    {
        let ghost start = self@;
        let mut left = budget;
        while left > 0
            invariant
                start == old(self)@,
                start.run(budget as nat) == self@.run(left as nat),
                start.wf() ==> self@.wf(),
            decreases left,
        {
            let result = self.step();
            let quiet = match &result {
                Ok(Effect::Nothing) => true,
                _ => false,
            };
            if !quiet {
                return result;
            }
            left = left - 1;
        }
        Ok(Effect::Nothing)
    }
}

} // verus!
