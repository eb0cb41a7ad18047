//! The meaning of the instruction set, as mathematics.
//!
//! The register file is a sequence of ten words, memory a sequence of 65536
//! words. `execute` maps both and one instruction word to the registers and
//! the memory after the instruction, together with what the host is asked to
//! do or the fault that stopped the instruction. The program counter that an
//! instruction sees is the address of the instruction after it: the fetch
//! has already moved it on.

use crate::vm::bits::{
    bit, lemma_field_bound, lemma_sign_extended_displacement, sign_extended, signed_value,
    spec_field, wrapping_sum,
};
use crate::vm::cpu::{Cpu, FL_NEG, FL_POS, FL_ZERO, MEMORY_SIZE};
use crate::vm::opcode::OpCode;
use crate::vm::syscall::SysCall;
use vstd::prelude::*;

verus! {

broadcast use crate::vm::bits::lemma_low_mask_values;

/// Why an instruction could not be executed.
#[derive(Clone, Copy, Debug, PartialEq, Eq, Structural)]
pub enum Fault {
    /// The instruction word holds the reserved opcode.
    InvalidOpcode,
    /// The instruction is a return from interrupt, and the machine has no
    /// interrupts.
    UnsupportedInstruction,
    /// The trap vector names no host service.
    InvalidTrapVector,
}

/// What an instruction asks of the host.
pub enum EffectView {
    /// Nothing.
    Nothing,
    /// Read one character without echo and deliver it.
    GetChar,
    /// Prompt, read one character, echo it and deliver it.
    PromptChar,
    /// Write one character.
    PutChar(u8),
    /// Write these characters, one per word.
    PutString(Seq<u16>),
    /// Write these characters, one per byte.
    PutBytes(Seq<u8>),
    /// Announce the halt and stop the simulation.
    Halt,
}

/// Registers and memory after an instruction, and how the instruction ended.
pub struct Outcome {
    pub regs: Seq<u16>,
    pub mem: Seq<u16>,
    pub result: Result<EffectView, Fault>,
}

/// Whether `flags` is one of the three condition flags.
pub open spec fn is_flag(flags: u16) -> bool {
    flags == FL_POS || flags == FL_ZERO || flags == FL_NEG
}

/// The condition flag that describes `value`: zero, negative when the top
/// bit is set, positive otherwise.
pub open spec fn flag_of(value: u16) -> u16 {
    if value == 0 {
        FL_ZERO
    } else if value >= 0x8000 {
        FL_NEG
    } else {
        FL_POS
    }
}

/// Bits 9..12 of an instruction: the destination register of a load or an
/// operation, the source register of a store.
pub open spec fn reg_a(inst: u16) -> int {
    spec_field(inst, 9, 3) as int
}

/// Bits 6..9 of an instruction: the first source register or the base
/// register.
pub open spec fn reg_b(inst: u16) -> int {
    spec_field(inst, 6, 3) as int
}

/// Bits 0..3 of an instruction: the second source register.
pub open spec fn reg_c(inst: u16) -> int {
    spec_field(inst, 0, 3) as int
}

/// The five-bit immediate of an instruction, sign-extended.
pub open spec fn imm5(inst: u16) -> u16 {
    sign_extended(spec_field(inst, 0, 5), 5)
}

/// The six-bit offset of an instruction, sign-extended.
pub open spec fn offset6(inst: u16) -> u16 {
    sign_extended(spec_field(inst, 0, 6), 6)
}

/// The nine-bit offset of an instruction, sign-extended.
pub open spec fn offset9(inst: u16) -> u16 {
    sign_extended(spec_field(inst, 0, 9), 9)
}

/// The eleven-bit offset of an instruction, sign-extended.
pub open spec fn offset11(inst: u16) -> u16 {
    sign_extended(spec_field(inst, 0, 11), 11)
}

/// The second operand of an addition or a conjunction: the immediate when
/// bit 5 is set, the second source register otherwise.
pub open spec fn second_operand(regs: Seq<u16>, inst: u16) -> u16 {
    if spec_field(inst, 5, 1) != 0 {
        imm5(inst)
    } else {
        regs[reg_c(inst)]
    }
}

/// Whether a branch instruction asks for the condition that `flags` holds.
pub open spec fn branch_taken(inst: u16, flags: u16) -> bool {
    ||| (spec_field(inst, 11, 1) != 0 && flags == FL_NEG)
    ||| (spec_field(inst, 10, 1) != 0 && flags == FL_ZERO)
    ||| (spec_field(inst, 9, 1) != 0 && flags == FL_POS)
}

/// The outcome of an instruction that asks nothing of the host.
pub open spec fn proceed(regs: Seq<u16>, mem: Seq<u16>) -> Outcome {
    Outcome { regs, mem, result: Ok(EffectView::Nothing) }
}

/// The outcome of an instruction that cannot be executed: nothing changes.
pub open spec fn fail(regs: Seq<u16>, mem: Seq<u16>, fault: Fault) -> Outcome {
    Outcome { regs, mem, result: Err(fault) }
}

/// The registers after `value` was written to register `dest` and the
/// condition flags were set from it.
pub open spec fn write_result(regs: Seq<u16>, dest: int, value: u16) -> Seq<u16> {
    regs.update(dest, value).update(Cpu::COND as int, flag_of(value))
}

/// The words from `addr` on, up to the first zero word, `limit` words at
/// most. Addresses wrap around the end of memory.
pub open spec fn string_from(mem: Seq<u16>, addr: u16, limit: nat) -> Seq<u16>
    decreases limit,
{
    if limit == 0 || mem[addr as int] == 0 {
        Seq::empty()
    } else {
        seq![mem[addr as int]] + string_from(mem, wrapping_sum(addr, 1), (limit - 1) as nat)
    }
}

/// The string of one character per word that starts at `addr`: the words up
/// to the first zero word. A memory without any zero word gives every word
/// once.
pub open spec fn string_at(mem: Seq<u16>, addr: u16) -> Seq<u16> {
    string_from(mem, addr, MEMORY_SIZE as nat)
}

/// The bytes from `addr` on, low byte of each word first, up to the first
/// zero byte, out of `limit` words at most.
pub open spec fn packed_string_from(mem: Seq<u16>, addr: u16, limit: nat) -> Seq<u8>
    decreases limit,
{
    let low = spec_field(mem[addr as int], 0, 8) as u8;
    let high = spec_field(mem[addr as int], 8, 8) as u8;
    if limit == 0 || low == 0 {
        Seq::empty()
    } else if high == 0 {
        seq![low]
    } else {
        seq![low, high] + packed_string_from(mem, wrapping_sum(addr, 1), (limit - 1) as nat)
    }
}

/// Byte number `index` of the bytes that lie from `addr` on, two per word,
/// the low byte of each word first; addresses wrap around the end of memory.
pub open spec fn packed_byte(mem: Seq<u16>, addr: u16, index: int) -> u8 {
    let word = mem[(addr + index / 2) % 0x10000];
    if index % 2 == 0 {
        spec_field(word, 0, 8) as u8
    } else {
        spec_field(word, 8, 8) as u8
    }
}

/// The string of two characters per word that starts at `addr`: the bytes up
/// to the first zero byte. A memory without any zero byte gives every byte
/// once.
pub open spec fn packed_string_at(mem: Seq<u16>, addr: u16) -> Seq<u8> {
    packed_string_from(mem, addr, MEMORY_SIZE as nat)
}

/// What a host service asks of the host, given the registers and memory.
pub open spec fn service_effect(call: SysCall, regs: Seq<u16>, mem: Seq<u16>) -> EffectView {
    match call {
        SysCall::GetC => EffectView::GetChar,
        SysCall::Out => EffectView::PutChar(spec_field(regs[Cpu::R0 as int], 0, 8) as u8),
        SysCall::PutS => EffectView::PutString(string_at(mem, regs[Cpu::R0 as int])),
        SysCall::In => EffectView::PromptChar,
        SysCall::PutSp => EffectView::PutBytes(packed_string_at(mem, regs[Cpu::R0 as int])),
        SysCall::Halt => EffectView::Halt,
    }
}

/// A trap: the link register receives the program counter, and the service
/// that the vector names is asked of the host. An unknown vector is a fault.
pub open spec fn trap(regs: Seq<u16>, mem: Seq<u16>, inst: u16) -> Outcome {
    match SysCall::with_vector(spec_field(inst, 0, 8) as usize) {
        Some(call) => {
            let linked = regs.update(Cpu::R7 as int, regs[Cpu::PC as int]);
            Outcome { regs: linked, mem, result: Ok(service_effect(call, linked, mem)) }
        },
        None => fail(regs, mem, Fault::InvalidTrapVector),
    }
}

/// Addition: the destination receives the sum, modulo 65536, of the first
/// source register and the second operand; the flags follow the sum.
pub open spec fn after_add(regs: Seq<u16>, inst: u16) -> Seq<u16> {
    write_result(regs, reg_a(inst), wrapping_sum(regs[reg_b(inst)], second_operand(regs, inst)))
}

/// Conjunction: the destination receives the bitwise AND of the first source
/// register and the second operand; the flags follow the result.
pub open spec fn after_and(regs: Seq<u16>, inst: u16) -> Seq<u16> {
    write_result(regs, reg_a(inst), regs[reg_b(inst)] & second_operand(regs, inst))
}

/// Complement: the destination receives the bitwise complement of the source
/// register; the flags follow the result.
pub open spec fn after_not(regs: Seq<u16>, inst: u16) -> Seq<u16> {
    write_result(regs, reg_a(inst), !regs[reg_b(inst)])
}

/// Branch: the program counter moves by the nine-bit offset if the
/// instruction asks for the condition that the flags hold; else nothing
/// changes.
pub open spec fn after_branch(regs: Seq<u16>, inst: u16) -> Seq<u16> {
    if branch_taken(inst, regs[Cpu::COND as int]) {
        regs.update(Cpu::PC as int, wrapping_sum(regs[Cpu::PC as int], offset9(inst)))
    } else {
        regs
    }
}

/// Jump: the program counter receives what the base register holds.
pub open spec fn after_jump(regs: Seq<u16>, inst: u16) -> Seq<u16> {
    regs.update(Cpu::PC as int, regs[reg_b(inst)])
}

/// Subroutine call: the link register receives the program counter, then
/// the program counter moves by the eleven-bit offset when bit 11 is set, and
/// to the address that the base register then holds otherwise.
pub open spec fn after_call(regs: Seq<u16>, inst: u16) -> Seq<u16> {
    let pc = regs[Cpu::PC as int];
    let linked = regs.update(Cpu::R7 as int, pc);
    if spec_field(inst, 11, 1) != 0 {
        linked.update(Cpu::PC as int, wrapping_sum(pc, offset11(inst)))
    } else {
        linked.update(Cpu::PC as int, linked[reg_b(inst)])
    }
}

/// Load: the destination receives the word at the program counter plus the
/// nine-bit offset; the flags follow it.
pub open spec fn after_load(regs: Seq<u16>, mem: Seq<u16>, inst: u16) -> Seq<u16> {
    write_result(regs, reg_a(inst), mem[wrapping_sum(regs[Cpu::PC as int], offset9(inst)) as int])
}

/// Indirect load: the word at the program counter plus the nine-bit offset
/// is an address; the destination receives the word at that address, and the
/// flags follow it.
pub open spec fn after_load_indirect(regs: Seq<u16>, mem: Seq<u16>, inst: u16) -> Seq<u16> {
    write_result(
        regs,
        reg_a(inst),
        mem[mem[wrapping_sum(regs[Cpu::PC as int], offset9(inst)) as int] as int],
    )
}

/// Load relative to a register: the destination receives the word at the
/// base register plus the six-bit offset; the flags follow it.
pub open spec fn after_load_register(regs: Seq<u16>, mem: Seq<u16>, inst: u16) -> Seq<u16> {
    write_result(regs, reg_a(inst), mem[wrapping_sum(regs[reg_b(inst)], offset6(inst)) as int])
}

/// Load of an address: the destination receives the program counter plus the
/// nine-bit offset, the address itself; the flags follow it.
pub open spec fn after_lea(regs: Seq<u16>, inst: u16) -> Seq<u16> {
    write_result(regs, reg_a(inst), wrapping_sum(regs[Cpu::PC as int], offset9(inst)))
}

/// Store: the word at the program counter plus the nine-bit offset receives
/// the source register.
pub open spec fn after_store(regs: Seq<u16>, mem: Seq<u16>, inst: u16) -> Seq<u16> {
    mem.update(wrapping_sum(regs[Cpu::PC as int], offset9(inst)) as int, regs[reg_a(inst)])
}

/// Indirect store: the word at the program counter plus the nine-bit offset
/// is an address; the word at that address receives the source register.
pub open spec fn after_store_indirect(regs: Seq<u16>, mem: Seq<u16>, inst: u16) -> Seq<u16> {
    mem.update(
        mem[wrapping_sum(regs[Cpu::PC as int], offset9(inst)) as int] as int,
        regs[reg_a(inst)],
    )
}

/// Store relative to a register: the word at the base register plus the
/// six-bit offset receives the source register.
pub open spec fn after_store_register(regs: Seq<u16>, mem: Seq<u16>, inst: u16) -> Seq<u16> {
    mem.update(wrapping_sum(regs[reg_b(inst)], offset6(inst)) as int, regs[reg_a(inst)])
}

/// Delivery of a character that the host has read: register 0 receives it,
/// zero-extended, and the flags follow it.
pub open spec fn after_input(regs: Seq<u16>, byte: u8) -> Seq<u16> {
    write_result(regs, Cpu::R0 as int, byte as u16)
}

/// Whether the operation of `inst` writes a result to a register and sets
/// the condition flags from it.
pub open spec fn updates_flags(inst: u16) -> bool {
    match OpCode::with_code(spec_field(inst, 12, 4)) {
        OpCode::Add | OpCode::And | OpCode::Not | OpCode::Load | OpCode::LoadIndirect
        | OpCode::LoadRegister | OpCode::Lea => true,
        _ => false,
    }
}

/// The effect of one instruction on registers and memory: the opcode in the
/// top four bits selects the operation. A return from interrupt and the
/// reserved opcode are faults.
pub open spec fn execute(regs: Seq<u16>, mem: Seq<u16>, inst: u16) -> Outcome {
    match OpCode::with_code(spec_field(inst, 12, 4)) {
        OpCode::Add => proceed(after_add(regs, inst), mem),
        OpCode::And => proceed(after_and(regs, inst), mem),
        OpCode::Not => proceed(after_not(regs, inst), mem),
        OpCode::Branch => proceed(after_branch(regs, inst), mem),
        OpCode::Jump => proceed(after_jump(regs, inst), mem),
        OpCode::JumpRegister => proceed(after_call(regs, inst), mem),
        OpCode::Load => proceed(after_load(regs, mem, inst), mem),
        OpCode::LoadIndirect => proceed(after_load_indirect(regs, mem, inst), mem),
        OpCode::LoadRegister => proceed(after_load_register(regs, mem, inst), mem),
        OpCode::Lea => proceed(after_lea(regs, inst), mem),
        OpCode::Store => proceed(regs, after_store(regs, mem, inst)),
        OpCode::StoreIndirect => proceed(regs, after_store_indirect(regs, mem, inst)),
        OpCode::StoreRegister => proceed(regs, after_store_register(regs, mem, inst)),
        OpCode::ExecTrap => trap(regs, mem, inst),
        OpCode::Rti => fail(regs, mem, Fault::UnsupportedInstruction),
        OpCode::Reserved => fail(regs, mem, Fault::InvalidOpcode),
    }
}

/// What `string_from` gives is the longest run of non-zero words that starts
/// at `addr` and is no longer than `limit`: each of its words is the word of
/// memory at its place, none is zero, and unless the run is `limit` long the
/// word after it is zero.
pub proof fn lemma_string_from(mem: Seq<u16>, addr: u16, limit: nat)
    ensures
        string_from(mem, addr, limit).len() <= limit,
        forall|i: int|
            0 <= i < string_from(mem, addr, limit).len() ==> #[trigger] string_from(
                mem,
                addr,
                limit,
            )[i] == mem[(addr + i) % 0x10000] && mem[(addr + i) % 0x10000] != 0,
        string_from(mem, addr, limit).len() < limit ==> mem[(addr + string_from(
            mem,
            addr,
            limit,
        ).len()) % 0x10000] == 0,
    decreases limit,
{
    if limit != 0 && mem[addr as int] != 0 {
        let next = wrapping_sum(addr, 1);
        let rest = string_from(mem, next, (limit - 1) as nat);
        let text = string_from(mem, addr, limit);
        lemma_string_from(mem, next, (limit - 1) as nat);
        assert(text == seq![mem[addr as int]] + rest);
        assert forall|i: int| 0 <= i < text.len() implies #[trigger] text[i] == mem[(addr + i)
            % 0x10000] && mem[(addr + i) % 0x10000] != 0 by {
            if i > 0 {
                assert(text[i] == rest[i - 1]);
                assert((next + (i - 1)) % 0x10000 == (addr + i) % 0x10000);
            }
        }
        assert((next + rest.len()) % 0x10000 == (addr + text.len()) % 0x10000);
    }
}

/// The string at `addr` is the longest run of non-zero words that starts
/// there, one pass over memory at most: it stops before the first zero word.
pub proof fn lemma_string_at(mem: Seq<u16>, addr: u16)
    ensures
        string_at(mem, addr).len() <= 65536,
        forall|i: int|
            0 <= i < string_at(mem, addr).len() ==> #[trigger] string_at(mem, addr)[i] == mem[(
            addr + i) % 0x10000] && mem[(addr + i) % 0x10000] != 0,
        string_at(mem, addr).len() < 65536 ==> mem[(addr + string_at(mem, addr).len())
            % 0x10000] == 0,
{
    lemma_string_from(mem, addr, 65536);
}

/// What `packed_string_from` gives is the longest run of non-zero bytes that
/// starts with the low byte of the word at `addr` and spans no more than
/// `limit` words.
pub proof fn lemma_packed_string_from(mem: Seq<u16>, addr: u16, limit: nat)
    ensures
        packed_string_from(mem, addr, limit).len() <= 2 * limit,
        forall|i: int|
            0 <= i < packed_string_from(mem, addr, limit).len() ==> #[trigger] packed_string_from(
                mem,
                addr,
                limit,
            )[i] == packed_byte(mem, addr, i) && packed_byte(mem, addr, i) != 0,
        packed_string_from(mem, addr, limit).len() < 2 * limit ==> packed_byte(
            mem,
            addr,
            packed_string_from(mem, addr, limit).len() as int,
        ) == 0,
    decreases limit,
{
    let low = spec_field(mem[addr as int], 0, 8) as u8;
    let high = spec_field(mem[addr as int], 8, 8) as u8;
    let text = packed_string_from(mem, addr, limit);
    assert(packed_byte(mem, addr, 0) == low);
    assert(packed_byte(mem, addr, 1) == high);
    if limit != 0 && low != 0 && high != 0 {
        let next = wrapping_sum(addr, 1);
        let rest = packed_string_from(mem, next, (limit - 1) as nat);
        lemma_packed_string_from(mem, next, (limit - 1) as nat);
        assert(text == seq![low, high] + rest);
        assert forall|i: int| 2 <= i implies packed_byte(mem, next, i - 2) == packed_byte(
            mem,
            addr,
            i,
        ) by {
            assert((next + (i - 2) / 2) % 0x10000 == (addr + i / 2) % 0x10000);
        }
        assert forall|i: int| 0 <= i < text.len() implies #[trigger] text[i] == packed_byte(
            mem,
            addr,
            i,
        ) && packed_byte(mem, addr, i) != 0 by {
            if i >= 2 {
                assert(text[i] == rest[i - 2]);
            }
        }
    }
}

/// The packed string at `addr` is the longest run of non-zero bytes that
/// starts there, one pass over memory at most: it stops before the first
/// zero byte.
pub proof fn lemma_packed_string_at(mem: Seq<u16>, addr: u16)
    ensures
        packed_string_at(mem, addr).len() <= 2 * 65536,
        forall|i: int|
            0 <= i < packed_string_at(mem, addr).len() ==> #[trigger] packed_string_at(
                mem,
                addr,
            )[i] == packed_byte(mem, addr, i) && packed_byte(mem, addr, i) != 0,
        packed_string_at(mem, addr).len() < 2 * 65536 ==> packed_byte(
            mem,
            addr,
            packed_string_at(mem, addr).len() as int,
        ) == 0,
{
    lemma_packed_string_from(mem, addr, 65536);
}

/// Every instruction leaves ten registers and 65536 words of memory, and a
/// flags register that held exactly one condition flag still holds exactly
/// one.
pub proof fn lemma_execute_keeps_shape(regs: Seq<u16>, mem: Seq<u16>, inst: u16)
    requires
        regs.len() == 10,
        mem.len() == 65536,
    ensures
        execute(regs, mem, inst).regs.len() == 10,
        execute(regs, mem, inst).mem.len() == 65536,
        is_flag(regs[Cpu::COND as int]) ==> is_flag(execute(regs, mem, inst).regs[Cpu::COND as int]),
{
    lemma_field_bound(inst, 9, 3);
    lemma_field_bound(inst, 6, 3);
}

/// After an instruction that writes a result to a register, exactly one
/// condition flag is set, and it is the one that describes what the
/// destination register now holds: zero for 0, negative for a set top bit,
/// positive otherwise.
pub proof fn lemma_flags_follow_result(regs: Seq<u16>, mem: Seq<u16>, inst: u16)
    requires
        regs.len() == 10,
        updates_flags(inst),
    ensures
        ({
            let after = execute(regs, mem, inst).regs;
            &&& is_flag(after[Cpu::COND as int])
            &&& after[Cpu::COND as int] == flag_of(after[reg_a(inst)])
            &&& after[Cpu::COND as int] == FL_ZERO <==> after[reg_a(inst)] == 0
            &&& after[Cpu::COND as int] == FL_NEG <==> bit(after[reg_a(inst)], 15)
        }),
{
    lemma_field_bound(inst, 9, 3);
    let value = execute(regs, mem, inst).regs[reg_a(inst)];
    assert(bit(value, 15) <==> value >= 0x8000) by (bit_vector);
}

/// After a character is delivered, exactly one condition flag is set, and it
/// describes the character in register 0.
pub proof fn lemma_flags_follow_input(regs: Seq<u16>, byte: u8)
    requires
        regs.len() == 10,
    ensures
        after_input(regs, byte).len() == 10,
        after_input(regs, byte)[Cpu::R0 as int] == byte,
        is_flag(after_input(regs, byte)[Cpu::COND as int]),
        after_input(regs, byte)[Cpu::COND as int] == flag_of(
            after_input(regs, byte)[Cpu::R0 as int],
        ),
{
}

/// Addition of two registers never fails and wraps: the destination holds
/// the sum of the two sources modulo 65536, and the flags describe it.
pub proof fn lemma_add_wraps(regs: Seq<u16>, mem: Seq<u16>, inst: u16)
    requires
        regs.len() == 10,
        OpCode::with_code(spec_field(inst, 12, 4)) == OpCode::Add,
        spec_field(inst, 5, 1) == 0,
    ensures
        ({
            let out = execute(regs, mem, inst);
            let sum = (regs[reg_b(inst)] + regs[reg_c(inst)]) % 0x10000;
            &&& out.result == Ok::<EffectView, Fault>(EffectView::Nothing)
            &&& out.mem == mem
            &&& out.regs[reg_a(inst)] == sum
            &&& out.regs[Cpu::COND as int] == flag_of(sum as u16)
        }),
{
    lemma_field_bound(inst, 9, 3);
}

/// A branch that asks for no condition that the flags hold changes nothing.
pub proof fn lemma_branch_not_taken(regs: Seq<u16>, mem: Seq<u16>, inst: u16)
    requires
        OpCode::with_code(spec_field(inst, 12, 4)) == OpCode::Branch,
        !branch_taken(inst, regs[Cpu::COND as int]),
    ensures
        execute(regs, mem, inst) == proceed(regs, mem),
{
}

/// While the positive flag is set, a branch on negative alone changes
/// nothing, whatever its offset.
pub proof fn lemma_branch_on_negative_while_positive(regs: Seq<u16>, mem: Seq<u16>, inst: u16)
    requires
        OpCode::with_code(spec_field(inst, 12, 4)) == OpCode::Branch,
        spec_field(inst, 10, 1) == 0,
        spec_field(inst, 9, 1) == 0,
        regs[Cpu::COND as int] == FL_POS,
    ensures
        execute(regs, mem, inst) == proceed(regs, mem),
{
}

/// A branch that asks for the condition that the flags hold moves the
/// program counter by its offset and changes nothing else.
pub proof fn lemma_branch_taken(regs: Seq<u16>, mem: Seq<u16>, inst: u16)
    requires
        OpCode::with_code(spec_field(inst, 12, 4)) == OpCode::Branch,
        branch_taken(inst, regs[Cpu::COND as int]),
    ensures
        execute(regs, mem, inst) == proceed(
            regs.update(Cpu::PC as int, wrapping_sum(regs[Cpu::PC as int], offset9(inst))),
            mem,
        ),
{
}

/// The reserved opcode, a return from interrupt and a trap with an unknown
/// vector are faults, and a fault changes neither registers nor memory.
pub proof fn lemma_faults(regs: Seq<u16>, mem: Seq<u16>, inst: u16)
    ensures
        spec_field(inst, 12, 4) == 13 ==> execute(regs, mem, inst) == fail(
            regs,
            mem,
            Fault::InvalidOpcode,
        ),
        spec_field(inst, 12, 4) == 8 ==> execute(regs, mem, inst) == fail(
            regs,
            mem,
            Fault::UnsupportedInstruction,
        ),
        spec_field(inst, 12, 4) == 15 && !(0x20 <= spec_field(inst, 0, 8) <= 0x25) ==> execute(
            regs,
            mem,
            inst,
        ) == fail(regs, mem, Fault::InvalidTrapVector),
        execute(regs, mem, inst).result is Err <==> spec_field(inst, 12, 4) == 13 || spec_field(
            inst,
            12,
            4,
        ) == 8 || (spec_field(inst, 12, 4) == 15 && !(0x20 <= spec_field(inst, 0, 8) <= 0x25)),
        execute(regs, mem, inst).result is Err ==> execute(regs, mem, inst).regs == regs && execute(
            regs,
            mem,
            inst,
        ).mem == mem,
{
    lemma_field_bound(inst, 12, 4);
}

/// The immediate and the offsets of an instruction are signed: adding one to
/// a word, modulo 65536, moves the word by the two's-complement number that
/// the field holds, forwards or backwards.
pub proof fn lemma_offsets_are_signed(base: u16, inst: u16)
    ensures
        wrapping_sum(base, imm5(inst)) == (base + signed_value(spec_field(inst, 0, 5), 5))
            % 0x10000,
        wrapping_sum(base, offset6(inst)) == (base + signed_value(spec_field(inst, 0, 6), 6))
            % 0x10000,
        wrapping_sum(base, offset9(inst)) == (base + signed_value(spec_field(inst, 0, 9), 9))
            % 0x10000,
        wrapping_sum(base, offset11(inst)) == (base + signed_value(spec_field(inst, 0, 11), 11))
            % 0x10000,
        -16 <= signed_value(spec_field(inst, 0, 5), 5) < 16,
        -32 <= signed_value(spec_field(inst, 0, 6), 6) < 32,
        -256 <= signed_value(spec_field(inst, 0, 9), 9) < 256,
        -1024 <= signed_value(spec_field(inst, 0, 11), 11) < 1024,
{
    lemma_field_bound(inst, 0, 5);
    lemma_field_bound(inst, 0, 6);
    lemma_field_bound(inst, 0, 9);
    lemma_field_bound(inst, 0, 11);
    lemma_sign_extended_displacement(base, spec_field(inst, 0, 5), 5);
    lemma_sign_extended_displacement(base, spec_field(inst, 0, 6), 6);
    lemma_sign_extended_displacement(base, spec_field(inst, 0, 9), 9);
    lemma_sign_extended_displacement(base, spec_field(inst, 0, 11), 11);
}

} // verus!
