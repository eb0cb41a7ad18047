//! The processor: the register file, the flag-update rule, sign extension,
//! and the execution of one instruction against registers and memory.

use crate::vm::bits::{
    bit, field, lemma_low_mask_values, lemma_sign_extended_by_masks,
    lemma_sign_extended_high_bit, lemma_sign_extended_low_bits, low_mask, sign_extended,
    spec_field,
};
use crate::vm::instructions::{
    Add, And, Branch, ImmediateAdd, ImmediateAnd, Jump, JumpSubRoutine, JumpSubRoutineRegister,
    Lea, Load, LoadIndirect, LoadRegister, Not, Store, StoreIndirect, StoreRegister, SysCall,
};
use crate::vm::opcode::OpCode;
use crate::vm::semantics::{
    after_add, after_and, after_branch, after_call, after_input, after_jump, after_lea, after_load,
    after_load_indirect, after_load_register, after_not, after_store, after_store_indirect,
    after_store_register, execute, flag_of, is_flag, packed_string_at, packed_string_from,
    lemma_execute_keeps_shape, service_effect, string_at, string_from, trap, EffectView, Fault,
};
use crate::vm::syscall;
use vstd::prelude::*;

verus! {

broadcast use lemma_low_mask_values;

/// The condition flag of a positive result.
pub const FL_POS: u16 = 1;

/// The condition flag of a zero result.
pub const FL_ZERO: u16 = 2;

/// The condition flag of a negative result.
pub const FL_NEG: u16 = 4;

/// The address at which the program counter starts.
pub const PC_START: u16 = 0x3000;

/// The number of words of memory.
pub const MEMORY_SIZE: usize = 65536;

/// What an instruction asks of the host.
#[derive(Debug, PartialEq, Eq)]
pub enum Effect {
    /// Nothing: the next instruction can be fetched.
    Nothing,
    /// Read one character without echo and hand it to `Cpu::receive_char`.
    GetChar,
    /// Prompt, read one character, echo it and hand it to
    /// `Cpu::receive_char`.
    PromptChar,
    /// Write one character.
    PutChar(u8),
    /// Write these characters, one per word.
    PutString(Vec<u16>),
    /// Write these characters, one per byte.
    PutBytes(Vec<u8>),
    /// Announce the halt and stop the simulation.
    Halt,
}

impl View for Effect {
    type V = EffectView;

    open spec fn view(&self) -> EffectView {
        match self {
            Effect::Nothing => EffectView::Nothing,
            Effect::GetChar => EffectView::GetChar,
            Effect::PromptChar => EffectView::PromptChar,
            Effect::PutChar(c) => EffectView::PutChar(*c),
            Effect::PutString(text) => EffectView::PutString(text@),
            Effect::PutBytes(text) => EffectView::PutBytes(text@),
            Effect::Halt => EffectView::Halt,
        }
    }
}

/// How an instruction ended, with the effect seen as mathematics.
pub open spec fn result_view(result: Result<Effect, Fault>) -> Result<EffectView, Fault> {
    match result {
        Ok(effect) => Ok(effect@),
        Err(fault) => Err(fault),
    }
}

/// The register file: eight general-purpose registers, the program counter
/// and the condition flags, in this order.
pub struct Cpu {
    pub registers: [u16; 10],
}

impl View for Cpu {
    type V = Seq<u16>;

    /// The ten registers as a sequence.
    open spec fn view(&self) -> Seq<u16> {
        self.registers@
    }
}

impl Cpu {
    /// Index of general-purpose register 0, through which the trap services
    /// take and give their values.
    pub const R0: usize = 0;

    /// Index of general-purpose register 1.
    pub const R1: usize = 1;

    /// Index of general-purpose register 2.
    pub const R2: usize = 2;

    /// Index of general-purpose register 3.
    pub const R3: usize = 3;

    /// Index of general-purpose register 4.
    pub const R4: usize = 4;

    /// Index of general-purpose register 5.
    pub const R5: usize = 5;

    /// Index of general-purpose register 6.
    pub const R6: usize = 6;

    /// Index of general-purpose register 7, the link register: calls and
    /// traps save the program counter in it.
    pub const R7: usize = 7;

    /// Index of the program counter.
    pub const PC: usize = 8;

    /// Index of the condition-flags register.
    pub const COND: usize = 9;

    /// Whether the flags register holds exactly one condition flag.
    pub open spec fn wf(self) -> bool {
        is_flag(self@[Cpu::COND as int])
    }

    /// The registers of a machine that has just been switched on: the
    /// program counter at its start address, the zero flag set, and zero in
    /// every general-purpose register.
    pub open spec fn initial() -> Seq<u16> {
        seq![0u16, 0u16, 0u16, 0u16, 0u16, 0u16, 0u16, 0u16, PC_START, FL_ZERO]
    }

    /// A register file in its initial state.
    pub fn new() -> (cpu: Cpu)
        ensures
            cpu@ == Cpu::initial(),
            cpu.wf(),
    {
        let mut cpu = Cpu { registers: [0; 10] };
        cpu.registers[Cpu::PC] = PC_START;
        cpu.registers[Cpu::COND] = FL_ZERO;
        cpu
    }

    /// Executes the instruction `inst` against the registers and `mem`.
    ///
    /// The program counter must already point past the instruction: offsets
    /// count from the instruction that follows. What is returned is what the
    /// host has to do before the next instruction, or the fault that stopped
    /// this one: the reserved opcode, a return from interrupt, or a trap with
    /// an unknown vector. A fault changes neither registers nor memory.
    pub fn exec_instruction(&mut self, inst: u16, mem: &mut [u16; 65536]) -> (result: Result<
        Effect,
        Fault,
    >)
        ensures
            final(self)@ == execute(old(self)@, old(mem)@, inst).regs,
            final(mem)@ == execute(old(self)@, old(mem)@, inst).mem,
            result_view(result) == execute(old(self)@, old(mem)@, inst).result,
            old(self).wf() ==> final(self).wf(),
    {
        proof {
            lemma_execute_keeps_shape(self@, mem@, inst);
        }
        let opcode = field(inst, 12, 4);

        match OpCode::try_from(opcode) {
            Ok(OpCode::Add) => {
                self.exec_add(inst);
                Ok(Effect::Nothing)
            },
            Ok(OpCode::And) => {
                self.exec_and(inst);
                Ok(Effect::Nothing)
            },
            Ok(OpCode::Not) => {
                self.exec_not(inst);
                Ok(Effect::Nothing)
            },
            Ok(OpCode::Branch) => {
                self.exec_branch(inst);
                Ok(Effect::Nothing)
            },
            Ok(OpCode::Jump) => {
                self.exec_jump(inst);
                Ok(Effect::Nothing)
            },
            Ok(OpCode::JumpRegister) => {
                self.exec_call(inst);
                Ok(Effect::Nothing)
            },
            Ok(OpCode::Load) => {
                self.exec_load(inst, mem);
                Ok(Effect::Nothing)
            },
            Ok(OpCode::LoadIndirect) => {
                self.exec_load_indirect(inst, mem);
                Ok(Effect::Nothing)
            },
            Ok(OpCode::LoadRegister) => {
                self.exec_load_register(inst, mem);
                Ok(Effect::Nothing)
            },
            Ok(OpCode::Lea) => {
                self.exec_lea(inst);
                Ok(Effect::Nothing)
            },
            Ok(OpCode::Store) => {
                self.exec_store(inst, mem);
                Ok(Effect::Nothing)
            },
            Ok(OpCode::StoreIndirect) => {
                self.exec_store_indirect(inst, mem);
                Ok(Effect::Nothing)
            },
            Ok(OpCode::StoreRegister) => {
                self.exec_store_register(inst, mem);
                Ok(Effect::Nothing)
            },
            Ok(OpCode::ExecTrap) => self.exec_trap(inst, mem),
            Ok(OpCode::Rti) => Err(Fault::UnsupportedInstruction),
            Ok(OpCode::Reserved) => Err(Fault::InvalidOpcode),
            Err(_) => Err(Fault::InvalidOpcode),
        }
    }

    /// Addition of a register and a register or an immediate.
    fn exec_add(&mut self, inst: u16)
        ensures
            final(self)@ == after_add(old(self)@, inst),
    {
        let add = ImmediateAdd::from_bits(inst);
        if !add.flag() {
            let add = Add::from_bits(inst);
            self.registers[add.dest()] = self.registers[add.src1()].wrapping_add(
                self.registers[add.src2()],
            );
            self.update_flag(add.dest());
            return ;
        }
        self.registers[add.dest()] = self.registers[add.src()].wrapping_add(
            Cpu::sign_extend(add.imm5() as u16, 5),
        );
        self.update_flag(add.dest());
    }

    /// Bitwise AND of a register and a register or an immediate.
    fn exec_and(&mut self, inst: u16)
        ensures
            final(self)@ == after_and(old(self)@, inst),
    {
        let and = ImmediateAnd::from_bits(inst);
        if !and.flag() {
            let and = And::from_bits(inst);
            self.registers[and.dest()] = self.registers[and.src1()] & self.registers[and.src2()];
            self.update_flag(and.dest());
            return ;
        }
        self.registers[and.dest()] = self.registers[and.src()] & Cpu::sign_extend(
            and.imm5() as u16,
            5,
        );
        self.update_flag(and.dest());
    }

    /// Bitwise complement of a register.
    fn exec_not(&mut self, inst: u16)
        ensures
            final(self)@ == after_not(old(self)@, inst),
    {
        let not = Not::from_bits(inst);
        self.registers[not.dest()] = !self.registers[not.src()];
        self.update_flag(not.dest());
    }

    /// Branch on the condition flags.
    fn exec_branch(&mut self, inst: u16)
        ensures
            final(self)@ == after_branch(old(self)@, inst),
    {
        let branch = Branch::from_bits(inst);
        let flags = self.registers[Cpu::COND];
        if (branch.n() && flags == FL_NEG) || (branch.z() && flags == FL_ZERO) || (branch.p()
            && flags == FL_POS) {
            self.registers[Cpu::PC] = self.registers[Cpu::PC].wrapping_add(
                Cpu::sign_extend(branch.pc_offset_9() as u16, 9),
            );
        }
    }

    /// Jump to the address in a register.
    fn exec_jump(&mut self, inst: u16)
        ensures
            final(self)@ == after_jump(old(self)@, inst),
    {
        let jump = Jump::from_bits(inst);
        self.registers[Cpu::PC] = self.registers[jump.base_register()];
    }

    /// Subroutine call, by offset or by register.
    fn exec_call(&mut self, inst: u16)
        ensures
            final(self)@ == after_call(old(self)@, inst),
    {
        let jump_subroutine = JumpSubRoutine::from_bits(inst);
        let pc = self.registers[Cpu::PC];
        self.registers[Cpu::R7] = pc;
        if !jump_subroutine.flag() {
            let jump_subroutine = JumpSubRoutineRegister::from_bits(inst);
            self.registers[Cpu::PC] = self.registers[jump_subroutine.base_register()];
            return ;
        }
        self.registers[Cpu::PC] = pc.wrapping_add(
            Cpu::sign_extend(jump_subroutine.pc_offset_11() as u16, 11),
        );
    }

    /// Load from an address relative to the program counter.
    fn exec_load(&mut self, inst: u16, mem: &[u16; 65536])
        ensures
            final(self)@ == after_load(old(self)@, mem@, inst),
    {
        let load = Load::from_bits(inst);
        let idx = self.registers[Cpu::PC].wrapping_add(
            Cpu::sign_extend(load.pc_offset_9() as u16, 9),
        );
        self.registers[load.dest()] = mem[idx as usize];
        self.update_flag(load.dest());
    }

    /// Load through a pointer that lies relative to the program counter.
    fn exec_load_indirect(&mut self, inst: u16, mem: &[u16; 65536])
        ensures
            final(self)@ == after_load_indirect(old(self)@, mem@, inst),
    {
        let load_ind = LoadIndirect::from_bits(inst);
        let idx = self.registers[Cpu::PC].wrapping_add(
            Cpu::sign_extend(load_ind.pc_offset_9() as u16, 9),
        );
        self.registers[load_ind.dest()] = mem[mem[idx as usize] as usize];
        self.update_flag(load_ind.dest());
    }

    /// Load from an address relative to a register.
    fn exec_load_register(&mut self, inst: u16, mem: &[u16; 65536])
        ensures
            final(self)@ == after_load_register(old(self)@, mem@, inst),
    {
        let load_register = LoadRegister::from_bits(inst);
        let idx = self.registers[load_register.base_register()].wrapping_add(
            Cpu::sign_extend(load_register.pc_offset_6() as u16, 6),
        );
        self.registers[load_register.dest()] = mem[idx as usize];
        self.update_flag(load_register.dest());
    }

    /// Load of an address relative to the program counter.
    fn exec_lea(&mut self, inst: u16)
        ensures
            final(self)@ == after_lea(old(self)@, inst),
    {
        let lea = Lea::from_bits(inst);
        let idx = self.registers[Cpu::PC].wrapping_add(
            Cpu::sign_extend(lea.pc_offset_9() as u16, 9),
        );
        self.registers[lea.dest()] = idx;
        self.update_flag(lea.dest());
    }

    /// Store to an address relative to the program counter.
    fn exec_store(&self, inst: u16, mem: &mut [u16; 65536])
        ensures
            final(mem)@ == after_store(self@, old(mem)@, inst),
    {
        let store = Store::from_bits(inst);
        let idx = self.registers[Cpu::PC].wrapping_add(
            Cpu::sign_extend(store.pc_offset_9() as u16, 9),
        );
        mem[idx as usize] = self.registers[store.src()];
    }

    /// Store through a pointer that lies relative to the program counter.
    fn exec_store_indirect(&self, inst: u16, mem: &mut [u16; 65536])
        ensures
            final(mem)@ == after_store_indirect(self@, old(mem)@, inst),
    {
        let store_indirect = StoreIndirect::from_bits(inst);
        let idx = self.registers[Cpu::PC].wrapping_add(
            Cpu::sign_extend(store_indirect.pc_offset_9() as u16, 9),
        );
        let target = mem[idx as usize];
        mem[target as usize] = self.registers[store_indirect.src()];
    }

    /// Store to an address relative to a register.
    fn exec_store_register(&self, inst: u16, mem: &mut [u16; 65536])
        ensures
            final(mem)@ == after_store_register(self@, old(mem)@, inst),
    {
        let store_register = StoreRegister::from_bits(inst);
        let idx = self.registers[store_register.base_register()].wrapping_add(
            Cpu::sign_extend(store_register.pc_offset_6() as u16, 6),
        );
        mem[idx as usize] = self.registers[store_register.src()];
    }

    /// Trap: saves the program counter in the link register and names what the
    /// service asks of the host; an unknown vector changes nothing.
    fn exec_trap(&mut self, inst: u16, mem: &[u16; 65536]) -> (result: Result<Effect, Fault>)
        ensures
            final(self)@ == trap(old(self)@, mem@, inst).regs,
            result_view(result) == trap(old(self)@, mem@, inst).result,
    {
        let syscall = SysCall::from_bits(inst);
        match syscall::SysCall::try_from(syscall.trap_vect_8()) {
            Ok(service) => {
                self.registers[Cpu::R7] = self.registers[Cpu::PC];
                Ok(self.request(service, mem))
            },
            Err(_) => Err(Fault::InvalidTrapVector),
        }
    }

    /// Takes a character that the host has read for a `GetChar` or
    /// `PromptChar` effect: register 0 receives it, zero-extended, and the
    /// flags follow it.
    pub fn receive_char(&mut self, byte: u8)
        ensures
            final(self)@ == after_input(old(self)@, byte),
            final(self).wf(),
    {
        self.registers[Cpu::R0] = byte as u16;
        self.update_flag(Cpu::R0);
    }

    /// What the host service `service` asks of the host, given the registers
    /// and memory as they stand.
    pub fn request(&self, service: syscall::SysCall, mem: &[u16; 65536]) -> (effect: Effect)
        ensures
            effect@ == service_effect(service, self@, mem@),
    {
        match service {
            syscall::SysCall::GetC => Effect::GetChar,
            syscall::SysCall::Out => Effect::PutChar(field(self.registers[Cpu::R0], 0, 8) as u8),
            syscall::SysCall::PutS => Effect::PutString(
                Cpu::read_string(mem, self.registers[Cpu::R0]),
            ),
            syscall::SysCall::In => Effect::PromptChar,
            syscall::SysCall::PutSp => Effect::PutBytes(
                Cpu::read_packed_string(mem, self.registers[Cpu::R0]),
            ),
            syscall::SysCall::Halt => Effect::Halt,
        }
    }

    /// The string of one character per word that starts at `start`: the
    /// words up to the first zero word, with addresses that wrap around the
    /// end of memory.
    pub fn read_string(mem: &[u16; 65536], start: u16) -> (text: Vec<u16>)
        ensures
            text@ == string_at(mem@, start),
    {
        let mut text: Vec<u16> = Vec::new();
        let mut addr: u16 = start;
        let mut left: usize = MEMORY_SIZE;
        while left > 0 && mem[addr as usize] != 0
            invariant
                left <= MEMORY_SIZE,
                string_at(mem@, start) == text@ + string_from(mem@, addr, left as nat),
            decreases left,
        {
            text.push(mem[addr as usize]);
            addr = addr.wrapping_add(1);
            left = left - 1;
        }
        text
    }

    /// The string of two characters per word that starts at `start`: the
    /// bytes, low byte of each word first, up to the first zero byte.
    pub fn read_packed_string(mem: &[u16; 65536], start: u16) -> (text: Vec<u8>)
        ensures
            text@ == packed_string_at(mem@, start),
    {
        let mut text: Vec<u8> = Vec::new();
        let mut addr: u16 = start;
        let mut left: usize = MEMORY_SIZE;
        while left > 0
            invariant_except_break
                packed_string_at(mem@, start) == text@ + packed_string_from(
                    mem@,
                    addr,
                    left as nat,
                ),
            ensures
                text@ == packed_string_at(mem@, start),
            decreases left,
        {
            let word = mem[addr as usize];
            let low = field(word, 0, 8) as u8;
            let high = field(word, 8, 8) as u8;
            if low == 0 {
                break ;
            }
            text.push(low);
            if high == 0 {
                break ;
            }
            text.push(high);
            addr = addr.wrapping_add(1);
            left = left - 1;
        }
        text
    }

    /// Extends the `bit_count` low bits of `num`, read as a two's-complement
    /// number, to sixteen bits: the low bits stay, and every higher bit
    /// becomes a copy of bit `bit_count - 1`.
    pub fn sign_extend(num: u16, bit_count: u16) -> (extended: u16)
        requires
            1 <= bit_count < 16,
        ensures
            extended == sign_extended(num, bit_count),
            spec_field(extended, 0, bit_count) == spec_field(num, 0, bit_count),
            num <= low_mask(bit_count) ==> spec_field(extended, 0, bit_count) == num,
            forall|index: u16|
                bit_count <= index < 16 ==> #[trigger] bit(extended, index) == bit(
                    num,
                    (bit_count - 1) as u16,
                ),
    {
        proof {
            lemma_sign_extended_by_masks(num, bit_count);
            lemma_sign_extended_low_bits(num, bit_count);
            assert forall|index: u16| bit_count <= index < 16 implies #[trigger] bit(
                sign_extended(num, bit_count),
                index,
            ) == bit(num, (bit_count - 1) as u16) by {
                lemma_sign_extended_high_bit(num, bit_count, index);
            }
        }
        let high: u16 = 0xFFFF << bit_count;
        if (num >> (bit_count - 1)) & 1 == 1 {
            num | high
        } else {
            num & !high
        }
    }

    /// Sets the condition flags from the value that register `reg` holds.
    pub fn update_flag(&mut self, reg: usize)
        requires
            reg < 10,
        ensures
            final(self)@ == old(self)@.update(Cpu::COND as int, flag_of(old(self)@[reg as int])),
            final(self).wf(),
    {
        if self.registers[reg] == 0 {
            self.registers[Cpu::COND] = FL_ZERO;
        } else if self.registers[reg] >= 0x8000 {
            self.registers[Cpu::COND] = FL_NEG;
        } else {
            self.registers[Cpu::COND] = FL_POS;
        }
    }
}

} // verus!
