use lc3_vm::vm::bits::{field, with_field};
use lc3_vm::vm::cpu::Cpu;
use lc3_vm::vm::instructions::{
    Add, And, Branch, ImmediateAdd, ImmediateAnd, Jump, JumpSubRoutine, JumpSubRoutineRegister,
    Lea, Load, LoadIndirect, LoadRegister, Not, Store, StoreIndirect, StoreRegister, SysCall,
};
use lc3_vm::vm::opcode::OpCode;
use lc3_vm::vm::syscall;

const ALL_OPCODES: [OpCode; 16] = [
    OpCode::Branch,
    OpCode::Add,
    OpCode::Load,
    OpCode::Store,
    OpCode::JumpRegister,
    OpCode::And,
    OpCode::LoadRegister,
    OpCode::StoreRegister,
    OpCode::Rti,
    OpCode::Not,
    OpCode::LoadIndirect,
    OpCode::StoreIndirect,
    OpCode::Jump,
    OpCode::Reserved,
    OpCode::Lea,
    OpCode::ExecTrap,
];

#[test]
fn field_reads_the_named_bits() {
    assert_eq!(field(0b1010_1100_0101_0011, 0, 4), 0b0011);
    assert_eq!(field(0b1010_1100_0101_0011, 4, 4), 0b0101);
    assert_eq!(field(0b1010_1100_0101_0011, 12, 4), 0b1010);
    assert_eq!(field(0b1010_1100_0101_0011, 9, 3), 0b110);
    assert_eq!(field(0b1010_1100_0101_0011, 5, 1), 0);
    assert_eq!(field(0b1010_1100_0101_0011, 6, 1), 1);
    assert_eq!(field(0xFFFF, 0, 16), 0xFFFF);
    assert_eq!(field(0xFFFF, 15, 1), 1);
    assert_eq!(field(0x1025, 0, 5), 5);
}

#[test]
fn with_field_replaces_only_the_named_bits() {
    assert_eq!(with_field(0x0000, 9, 3, 0b101), 0b0000_1010_0000_0000);
    assert_eq!(with_field(0xFFFF, 9, 3, 0b101), 0b1111_1011_1111_1111);
    assert_eq!(with_field(0xFFFF, 0, 9, 0), 0xFE00);
    assert_eq!(with_field(0x1234, 12, 4, 0xF), 0xF234);
    assert_eq!(with_field(0x1234, 0, 16, 0xABCD), 0xABCD);
}

#[test]
fn field_and_with_field_are_inverse() {
    let layout: [(u16, u16); 5] = [(0, 5), (5, 1), (6, 3), (9, 3), (12, 4)];
    for word in [0x0000u16, 0xFFFF, 0x1025, 0xA5A5, 0x5A5A, 0x8001] {
        for (offset, width) in layout {
            let max = (1u16 << width) - 1;
            for value in [0, 1, max / 2, max] {
                let written = with_field(word, offset, width, value);
                assert_eq!(field(written, offset, width), value);
                for (other_offset, other_width) in layout {
                    if other_offset != offset {
                        assert_eq!(
                            field(written, other_offset, other_width),
                            field(word, other_offset, other_width)
                        );
                    }
                }
            }
            assert_eq!(with_field(word, offset, width, field(word, offset, width)), word);
        }
    }
}

#[test]
fn a_field_is_a_quotient_modulo_a_power_of_two() {
    for word in [0x0000u32, 0xFFFF, 0x1025, 0xA5A5, 0x5A5A, 0x8001, 0x7FFE] {
        for offset in 0..16u32 {
            for width in 1..=(16 - offset) {
                let expected = (word / (1 << offset)) % (1 << width);
                assert_eq!(field(word as u16, offset as u16, width as u16) as u32, expected);
            }
        }
    }
}

#[test]
fn writing_a_field_exchanges_its_scaled_value() {
    for word in [0x0000i64, 0xFFFF, 0x1025, 0xA5A5, 0x5A5A, 0x8001, 0x7FFE] {
        for offset in 0..16u16 {
            for width in 1..=(16 - offset) {
                let max = ((1u32 << width) - 1) as u16;
                for value in [0, 1, max / 2, max] {
                    let held = field(word as u16, offset, width) as i64;
                    let scale = 1i64 << offset;
                    let expected = word - held * scale + (value as i64) * scale;
                    assert_eq!(with_field(word as u16, offset, width, value) as i64, expected);
                }
            }
        }
    }
}

#[test]
fn sign_extend_known_values() {
    assert_eq!(Cpu::sign_extend(0x05, 5), 0x0005);
    assert_eq!(Cpu::sign_extend(0x0F, 5), 0x000F);
    assert_eq!(Cpu::sign_extend(0x10, 5), 0xFFF0);
    assert_eq!(Cpu::sign_extend(0x1F, 5), 0xFFFF);
    assert_eq!(Cpu::sign_extend(0x1F, 6), 0x001F);
    assert_eq!(Cpu::sign_extend(0x20, 6), 0xFFE0);
    assert_eq!(Cpu::sign_extend(0x3F, 6), 0xFFFF);
    assert_eq!(Cpu::sign_extend(0x0FF, 9), 0x00FF);
    assert_eq!(Cpu::sign_extend(0x100, 9), 0xFF00);
    assert_eq!(Cpu::sign_extend(0x1FF, 9), 0xFFFF);
    assert_eq!(Cpu::sign_extend(0x3FF, 11), 0x03FF);
    assert_eq!(Cpu::sign_extend(0x400, 11), 0xFC00);
    assert_eq!(Cpu::sign_extend(0x7FF, 11), 0xFFFF);
    assert_eq!(Cpu::sign_extend(0, 1), 0x0000);
    assert_eq!(Cpu::sign_extend(1, 1), 0xFFFF);
    assert_eq!(Cpu::sign_extend(0x3FFF, 15), 0x3FFF);
    assert_eq!(Cpu::sign_extend(0x4000, 15), 0xC000);
}

#[test]
fn sign_extend_clears_high_bits_of_a_positive_field() {
    assert_eq!(Cpu::sign_extend(0xFFE5, 5), 0x0005);
    assert_eq!(Cpu::sign_extend(0xFE0F, 9), 0x000F);
    assert_eq!(Cpu::sign_extend(0x0030, 5), 0xFFF0);
}

#[test]
fn sign_extend_copies_the_sign_bit_for_every_field_value() {
    for width in [5u16, 6, 9, 11] {
        for value in 0..(1u16 << width) {
            let extended = Cpu::sign_extend(value, width);
            let mask = (1u16 << width) - 1;
            assert_eq!(extended & mask, value);
            let sign = (value >> (width - 1)) & 1;
            for index in width..16 {
                assert_eq!((extended >> index) & 1, sign);
            }
            let signed = if sign == 1 { value as i32 - (1 << width) } else { value as i32 };
            assert_eq!(extended as i16 as i32, signed);
        }
    }
}

#[test]
fn opcode_numbers() {
    assert_eq!(OpCode::Branch.into_bits(), 0);
    assert_eq!(OpCode::Add.into_bits(), 1);
    assert_eq!(OpCode::Load.into_bits(), 2);
    assert_eq!(OpCode::Store.into_bits(), 3);
    assert_eq!(OpCode::JumpRegister.into_bits(), 4);
    assert_eq!(OpCode::And.into_bits(), 5);
    assert_eq!(OpCode::LoadRegister.into_bits(), 6);
    assert_eq!(OpCode::StoreRegister.into_bits(), 7);
    assert_eq!(OpCode::Rti.into_bits(), 8);
    assert_eq!(OpCode::Not.into_bits(), 9);
    assert_eq!(OpCode::LoadIndirect.into_bits(), 10);
    assert_eq!(OpCode::StoreIndirect.into_bits(), 11);
    assert_eq!(OpCode::Jump.into_bits(), 12);
    assert_eq!(OpCode::Reserved.into_bits(), 13);
    assert_eq!(OpCode::Lea.into_bits(), 14);
    assert_eq!(OpCode::ExecTrap.into_bits(), 15);
}

#[test]
fn opcode_from_bits_inverts_into_bits() {
    for (number, op) in ALL_OPCODES.iter().enumerate() {
        assert_eq!(OpCode::from_bits(number as u16), *op);
        assert_eq!(op.into_bits(), number as u16);
        assert_eq!(OpCode::try_from(number as u16), Ok(*op));
    }
}

#[test]
fn opcode_try_from_rejects_wide_numbers() {
    assert_eq!(OpCode::try_from(16u16), Err(()));
    assert_eq!(OpCode::try_from(0x1000u16), Err(()));
    assert_eq!(OpCode::try_from(0xFFFFu16), Err(()));
}

#[test]
fn trap_vectors() {
    assert_eq!(syscall::SysCall::try_from(0x20usize), Ok(syscall::SysCall::GetC));
    assert_eq!(syscall::SysCall::try_from(0x21usize), Ok(syscall::SysCall::Out));
    assert_eq!(syscall::SysCall::try_from(0x22usize), Ok(syscall::SysCall::PutS));
    assert_eq!(syscall::SysCall::try_from(0x23usize), Ok(syscall::SysCall::In));
    assert_eq!(syscall::SysCall::try_from(0x24usize), Ok(syscall::SysCall::PutSp));
    assert_eq!(syscall::SysCall::try_from(0x25usize), Ok(syscall::SysCall::Halt));
}

#[test]
fn unknown_trap_vectors_are_rejected() {
    for vector in (0usize..0x20).chain(0x26..0x100).chain([0x120, 0x125, usize::MAX]) {
        assert_eq!(syscall::SysCall::try_from(vector), Err(()));
    }
}

#[test]
fn add_immediate_fields() {
    // ADD R0, R0, #5
    let inst = ImmediateAdd::from_bits(0x1025);
    assert_eq!(inst.opcode(), OpCode::Add);
    assert_eq!(inst.dest(), 0);
    assert_eq!(inst.src(), 0);
    assert!(inst.flag());
    assert_eq!(inst.imm5(), 5);
    // ADD R3, R5, #-1
    let inst = ImmediateAdd::from_bits(0b0001_011_101_1_11111);
    assert_eq!(inst.dest(), 3);
    assert_eq!(inst.src(), 5);
    assert!(inst.flag());
    assert_eq!(inst.imm5(), 0x1F);
}

#[test]
fn add_register_fields() {
    // ADD R2, R7, R4
    let inst = Add::from_bits(0b0001_010_111_000_100);
    assert_eq!(inst.opcode(), OpCode::Add);
    assert_eq!(inst.dest(), 2);
    assert_eq!(inst.src1(), 7);
    assert_eq!(inst.padding(), 0);
    assert_eq!(inst.src2(), 4);
    assert!(!ImmediateAdd::from_bits(inst.into_bits()).flag());
}

#[test]
fn branch_fields() {
    let inst = Branch::from_bits(0b0000_101_111111110);
    assert_eq!(inst.opcode(), OpCode::Branch);
    assert!(inst.n());
    assert!(!inst.z());
    assert!(inst.p());
    assert_eq!(inst.pc_offset_9(), 0x1FE);
}

#[test]
fn memory_instruction_fields() {
    let inst = LoadRegister::from_bits(0b0110_100_011_111101);
    assert_eq!(inst.opcode(), OpCode::LoadRegister);
    assert_eq!(inst.dest(), 4);
    assert_eq!(inst.base_register(), 3);
    assert_eq!(inst.pc_offset_6(), 0x3D);
    let inst = StoreRegister::from_bits(0b0111_001_110_000010);
    assert_eq!(inst.opcode(), OpCode::StoreRegister);
    assert_eq!(inst.src(), 1);
    assert_eq!(inst.base_register(), 6);
    assert_eq!(inst.pc_offset_6(), 2);
    let inst = Store::from_bits(0b0011_101_000000111);
    assert_eq!(inst.opcode(), OpCode::Store);
    assert_eq!(inst.src(), 5);
    assert_eq!(inst.pc_offset_9(), 7);
    let inst = LoadIndirect::from_bits(0b1010_110_100000000);
    assert_eq!(inst.opcode(), OpCode::LoadIndirect);
    assert_eq!(inst.dest(), 6);
    assert_eq!(inst.pc_offset_9(), 0x100);
}

#[test]
fn control_instruction_fields() {
    let inst = JumpSubRoutine::from_bits(0b0100_1_10000000001);
    assert_eq!(inst.opcode(), OpCode::JumpRegister);
    assert!(inst.flag());
    assert_eq!(inst.pc_offset_11(), 0x401);
    let inst = JumpSubRoutineRegister::from_bits(0b0100_000_101_000000);
    assert_eq!(inst.base_register(), 5);
    assert!(!JumpSubRoutine::from_bits(inst.into_bits()).flag());
    let inst = Jump::from_bits(0b1100_000_111_000000);
    assert_eq!(inst.opcode(), OpCode::Jump);
    assert_eq!(inst.base_register(), 7);
    let inst = SysCall::from_bits(0xF025);
    assert_eq!(inst.opcode(), OpCode::ExecTrap);
    assert_eq!(inst.trap_vect_8(), 0x25);
    let inst = Not::from_bits(0b1001_011_100_111111);
    assert_eq!(inst.opcode(), OpCode::Not);
    assert_eq!(inst.dest(), 3);
    assert_eq!(inst.src(), 4);
    assert_eq!(inst.padding(), 0x3F);
}

#[test]
fn builders_assemble_instruction_words() {
    let add = ImmediateAdd::new()
        .with_opcode(OpCode::Add)
        .with_dest(0)
        .with_src(0)
        .with_flag(true)
        .with_imm5(5);
    assert_eq!(add.into_bits(), 0x1025);
    let branch = Branch::new().with_n(true).with_pc_offset_9(0x1FF);
    assert_eq!(branch.into_bits(), 0b0000_100_111111111);
    let trap = SysCall::new().with_opcode(OpCode::ExecTrap).with_trap_vect_8(0x22);
    assert_eq!(trap.into_bits(), 0xF022);
    let not = Not::new().with_opcode(OpCode::Not).with_dest(1).with_src(2).with_padding(0x3F);
    assert_eq!(not.into_bits(), 0b1001_001_010_111111);
    let ldr = LoadRegister::new()
        .with_opcode(OpCode::LoadRegister)
        .with_dest(7)
        .with_base_register(6)
        .with_pc_offset_6(0x3F);
    assert_eq!(ldr.into_bits(), 0b0110_111_110_111111);
    let jsr = JumpSubRoutine::new()
        .with_opcode(OpCode::JumpRegister)
        .with_flag(true)
        .with_pc_offset_11(0x7FF);
    assert_eq!(jsr.into_bits(), 0x4FFF);
}

#[test]
fn a_builder_overwrites_what_the_field_held() {
    let inst = Add::from_bits(0xFFFF).with_dest(0).with_src2(5);
    assert_eq!(inst.into_bits(), 0b1111_000_111_111_101);
    assert_eq!(Branch::from_bits(0xFFFF).with_z(false).into_bits(), 0xFBFF);
    assert_eq!(Lea::from_bits(0xFFFF).with_opcode(OpCode::Branch).into_bits(), 0x0FFF);
}

#[test]
fn new_layouts_are_all_zero() {
    assert_eq!(Store::new().into_bits(), 0);
    assert_eq!(Add::new().into_bits(), 0);
    assert_eq!(SysCall::new().into_bits(), 0);
    assert_eq!(Branch::new().opcode(), OpCode::Branch);
}

#[test]
fn every_word_survives_decoding_and_encoding_three_field_layouts() {
    for word in 0..=u16::MAX {
        let a = Store::from_bits(word);
        let b = Store::new()
            .with_pc_offset_9(a.pc_offset_9())
            .with_src(a.src())
            .with_opcode(a.opcode());
        assert_eq!(b.into_bits(), word);
        let a = StoreIndirect::from_bits(word);
        let b = StoreIndirect::new()
            .with_pc_offset_9(a.pc_offset_9())
            .with_src(a.src())
            .with_opcode(a.opcode());
        assert_eq!(b.into_bits(), word);
        let a = Load::from_bits(word);
        let b =
            Load::new().with_pc_offset_9(a.pc_offset_9()).with_dest(a.dest()).with_opcode(a.opcode());
        assert_eq!(b.into_bits(), word);
        let a = LoadIndirect::from_bits(word);
        let b = LoadIndirect::new()
            .with_pc_offset_9(a.pc_offset_9())
            .with_dest(a.dest())
            .with_opcode(a.opcode());
        assert_eq!(b.into_bits(), word);
        let a = Lea::from_bits(word);
        let b =
            Lea::new().with_pc_offset_9(a.pc_offset_9()).with_dest(a.dest()).with_opcode(a.opcode());
        assert_eq!(b.into_bits(), word);
        let a = JumpSubRoutine::from_bits(word);
        let b = JumpSubRoutine::new()
            .with_pc_offset_11(a.pc_offset_11())
            .with_flag(a.flag())
            .with_opcode(a.opcode());
        assert_eq!(b.into_bits(), word);
        let a = SysCall::from_bits(word);
        let b = SysCall::new()
            .with_trap_vect_8(a.trap_vect_8())
            .with_padding(a.padding())
            .with_opcode(a.opcode());
        assert_eq!(b.into_bits(), word);
    }
}

#[test]
fn every_word_survives_decoding_and_encoding_four_field_layouts() {
    for word in 0..=u16::MAX {
        let a = StoreRegister::from_bits(word);
        let b = StoreRegister::new()
            .with_pc_offset_6(a.pc_offset_6())
            .with_base_register(a.base_register())
            .with_src(a.src())
            .with_opcode(a.opcode());
        assert_eq!(b.into_bits(), word);
        let a = LoadRegister::from_bits(word);
        let b = LoadRegister::new()
            .with_pc_offset_6(a.pc_offset_6())
            .with_base_register(a.base_register())
            .with_dest(a.dest())
            .with_opcode(a.opcode());
        assert_eq!(b.into_bits(), word);
        let a = Jump::from_bits(word);
        let b = Jump::new()
            .with_padding(a.padding())
            .with_base_register(a.base_register())
            .with_padding2(a.padding2())
            .with_opcode(a.opcode());
        assert_eq!(b.into_bits(), word);
        let a = JumpSubRoutineRegister::from_bits(word);
        let b = JumpSubRoutineRegister::new()
            .with_padding(a.padding())
            .with_base_register(a.base_register())
            .with_padding1(a.padding1())
            .with_opcode(a.opcode());
        assert_eq!(b.into_bits(), word);
        let a = Not::from_bits(word);
        let b = Not::new()
            .with_padding(a.padding())
            .with_src(a.src())
            .with_dest(a.dest())
            .with_opcode(a.opcode());
        assert_eq!(b.into_bits(), word);
    }
}

#[test]
fn every_word_survives_decoding_and_encoding_five_field_layouts() {
    for word in 0..=u16::MAX {
        let a = Add::from_bits(word);
        let b = Add::new()
            .with_src2(a.src2())
            .with_padding(a.padding())
            .with_src1(a.src1())
            .with_dest(a.dest())
            .with_opcode(a.opcode());
        assert_eq!(b.into_bits(), word);
        let a = And::from_bits(word);
        let b = And::new()
            .with_src2(a.src2())
            .with_padding(a.padding())
            .with_src1(a.src1())
            .with_dest(a.dest())
            .with_opcode(a.opcode());
        assert_eq!(b.into_bits(), word);
        let a = ImmediateAdd::from_bits(word);
        let b = ImmediateAdd::new()
            .with_imm5(a.imm5())
            .with_flag(a.flag())
            .with_src(a.src())
            .with_dest(a.dest())
            .with_opcode(a.opcode());
        assert_eq!(b.into_bits(), word);
        let a = ImmediateAnd::from_bits(word);
        let b = ImmediateAnd::new()
            .with_imm5(a.imm5())
            .with_flag(a.flag())
            .with_src(a.src())
            .with_dest(a.dest())
            .with_opcode(a.opcode());
        assert_eq!(b.into_bits(), word);
        let a = Branch::from_bits(word);
        let b = Branch::new()
            .with_pc_offset_9(a.pc_offset_9())
            .with_p(a.p())
            .with_z(a.z())
            .with_n(a.n())
            .with_opcode(a.opcode());
        assert_eq!(b.into_bits(), word);
    }
}
