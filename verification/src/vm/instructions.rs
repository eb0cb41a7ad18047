//! The instruction layouts: for each operation, a view of the 16-bit
//! instruction word as named fields, with a reader and a builder per field.
//!
//! Every layout covers all sixteen bits, lowest field first, and ends with the
//! four-bit opcode. A reader returns what `spec_field` gives for the field's
//! offset and width; a builder returns what `spec_with_field` gives, and asks
//! that the new value fit in the field.

use crate::vm::bits::{
    field, lemma_field_bound, lemma_low_mask_values, spec_field, spec_with_field, with_field,
};
use crate::vm::opcode::OpCode;
use vstd::prelude::*;

verus! {

broadcast use lemma_low_mask_values;

/// The bit that stands for a flag.
pub open spec fn flag_bit(flag: bool) -> u16 {
    if flag {
        1
    } else {
        0
    }
}

/// A word is rebuilt from its fields of widths 9, 3, 4, lowest first.
proof fn lemma_rebuild_9_3_4(word: u16)
    by (bit_vector)
    ensures
        ({
            let w0 = spec_with_field(0, 0, 9, spec_field(word, 0, 9));
            let w1 = spec_with_field(w0, 9, 3, spec_field(word, 9, 3));
            let w2 = spec_with_field(w1, 12, 4, spec_field(word, 12, 4));
            w2
        }) == word,
{
}

/// A word is rebuilt from its fields of widths 6, 3, 3, 4, lowest first.
proof fn lemma_rebuild_6_3_3_4(word: u16)
    by (bit_vector)
    ensures
        ({
            let w0 = spec_with_field(0, 0, 6, spec_field(word, 0, 6));
            let w1 = spec_with_field(w0, 6, 3, spec_field(word, 6, 3));
            let w2 = spec_with_field(w1, 9, 3, spec_field(word, 9, 3));
            let w3 = spec_with_field(w2, 12, 4, spec_field(word, 12, 4));
            w3
        }) == word,
{
}

/// A word is rebuilt from its fields of widths 3, 3, 3, 3, 4, lowest first.
proof fn lemma_rebuild_3_3_3_3_4(word: u16)
    by (bit_vector)
    ensures
        ({
            let w0 = spec_with_field(0, 0, 3, spec_field(word, 0, 3));
            let w1 = spec_with_field(w0, 3, 3, spec_field(word, 3, 3));
            let w2 = spec_with_field(w1, 6, 3, spec_field(word, 6, 3));
            let w3 = spec_with_field(w2, 9, 3, spec_field(word, 9, 3));
            let w4 = spec_with_field(w3, 12, 4, spec_field(word, 12, 4));
            w4
        }) == word,
{
}

/// A word is rebuilt from its fields of widths 5, 1, 3, 3, 4, lowest first.
proof fn lemma_rebuild_5_1_3_3_4(word: u16)
    by (bit_vector)
    ensures
        ({
            let w0 = spec_with_field(0, 0, 5, spec_field(word, 0, 5));
            let w1 = spec_with_field(w0, 5, 1, spec_field(word, 5, 1));
            let w2 = spec_with_field(w1, 6, 3, spec_field(word, 6, 3));
            let w3 = spec_with_field(w2, 9, 3, spec_field(word, 9, 3));
            let w4 = spec_with_field(w3, 12, 4, spec_field(word, 12, 4));
            w4
        }) == word,
{
}

/// A word is rebuilt from its fields of widths 9, 1, 1, 1, 4, lowest first.
proof fn lemma_rebuild_9_1_1_1_4(word: u16)
    by (bit_vector)
    ensures
        ({
            let w0 = spec_with_field(0, 0, 9, spec_field(word, 0, 9));
            let w1 = spec_with_field(w0, 9, 1, spec_field(word, 9, 1));
            let w2 = spec_with_field(w1, 10, 1, spec_field(word, 10, 1));
            let w3 = spec_with_field(w2, 11, 1, spec_field(word, 11, 1));
            let w4 = spec_with_field(w3, 12, 4, spec_field(word, 12, 4));
            w4
        }) == word,
{
}

/// A word is rebuilt from its fields of widths 11, 1, 4, lowest first.
proof fn lemma_rebuild_11_1_4(word: u16)
    by (bit_vector)
    ensures
        ({
            let w0 = spec_with_field(0, 0, 11, spec_field(word, 0, 11));
            let w1 = spec_with_field(w0, 11, 1, spec_field(word, 11, 1));
            let w2 = spec_with_field(w1, 12, 4, spec_field(word, 12, 4));
            w2
        }) == word,
{
}

/// A word is rebuilt from its fields of widths 8, 4, 4, lowest first.
proof fn lemma_rebuild_8_4_4(word: u16)
    by (bit_vector)
    ensures
        ({
            let w0 = spec_with_field(0, 0, 8, spec_field(word, 0, 8));
            let w1 = spec_with_field(w0, 8, 4, spec_field(word, 8, 4));
            let w2 = spec_with_field(w1, 12, 4, spec_field(word, 12, 4));
            w2
        }) == word,
{
}

/// Store a register at an address relative to the program counter.
#[derive(Clone, Copy, Debug, PartialEq, Eq, Structural)]
pub struct Store(pub u16);

impl Store {
    /// The layout over the all-zero word.
    pub fn new() -> (out: Self)
        ensures
            out.0 == 0,
    {
        Self(0)
    }

    /// The layout over `bits`.
    pub fn from_bits(bits: u16) -> (out: Self)
        ensures
            out.0 == bits,
    {
        Self(bits)
    }

    /// The instruction word.
    pub fn into_bits(self) -> (bits: u16)
        ensures
            bits == self.0,
    {
        self.0
    }

    /// Bits 0..9: the offset from the program counter, a signed nine-bit number.
    pub fn pc_offset_9(&self) -> (value: usize)
        ensures
            value == spec_field(self.0, 0, 9),
            value <= 0x1ff,
    {
        field(self.0, 0, 9) as usize
    }

    /// Replaces bits 0..9 by `value`, which must fit in nine bits.
    pub fn with_pc_offset_9(self, value: usize) -> (out: Self)
        requires
            value <= 0x1ff,
        ensures
            out.0 == spec_with_field(self.0, 0, 9, value as u16),
            spec_field(out.0, 0, 9) == value,
    {
        Self(with_field(self.0, 0, 9, value as u16))
    }

    /// Bits 9..12: the register to store.
    pub fn src(&self) -> (value: usize)
        ensures
            value == spec_field(self.0, 9, 3),
            value <= 0x7,
    {
        field(self.0, 9, 3) as usize
    }

    /// Replaces bits 9..12 by `value`, which must fit in three bits.
    pub fn with_src(self, value: usize) -> (out: Self)
        requires
            value <= 0x7,
        ensures
            out.0 == spec_with_field(self.0, 9, 3, value as u16),
            spec_field(out.0, 9, 3) == value,
    {
        Self(with_field(self.0, 9, 3, value as u16))
    }

    /// Bits 12..16: the opcode.
    pub fn opcode(&self) -> (value: OpCode)
        ensures
            value == OpCode::with_code(spec_field(self.0, 12, 4)),
            value.code() == spec_field(self.0, 12, 4),
    {
        OpCode::from_bits(field(self.0, 12, 4))
    }

    /// Replaces bits 12..16 by the number of `value`.
    pub fn with_opcode(self, value: OpCode) -> (out: Self)
        ensures
            out.0 == spec_with_field(self.0, 12, 4, value.code()),
            spec_field(out.0, 12, 4) == value.code(),
    {
        Self(with_field(self.0, 12, 4, value.into_bits()))
    }

    /// Reading every field of `word` and writing each, as the builders do, into
    /// the all-zero word gives `word` back.
    pub proof fn lemma_round_trip(word: u16)
        ensures
            ({
                let w0 = spec_with_field(0, 0, 9, spec_field(word, 0, 9));
                let w1 = spec_with_field(w0, 9, 3, spec_field(word, 9, 3));
                let w2 = spec_with_field(w1, 12, 4, OpCode::with_code(spec_field(word, 12, 4)).code());
                w2
            }) == word,
    {
        lemma_field_bound(word, 12, 4);
        lemma_rebuild_9_3_4(word);
    }
}

/// Store a register at the address held in a word that lies relative to the
/// program counter.
#[derive(Clone, Copy, Debug, PartialEq, Eq, Structural)]
pub struct StoreIndirect(pub u16);

impl StoreIndirect {
    /// The layout over the all-zero word.
    pub fn new() -> (out: Self)
        ensures
            out.0 == 0,
    {
        Self(0)
    }

    /// The layout over `bits`.
    pub fn from_bits(bits: u16) -> (out: Self)
        ensures
            out.0 == bits,
    {
        Self(bits)
    }

    /// The instruction word.
    pub fn into_bits(self) -> (bits: u16)
        ensures
            bits == self.0,
    {
        self.0
    }

    /// Bits 0..9: the offset from the program counter, a signed nine-bit number.
    pub fn pc_offset_9(&self) -> (value: usize)
        ensures
            value == spec_field(self.0, 0, 9),
            value <= 0x1ff,
    {
        field(self.0, 0, 9) as usize
    }

    /// Replaces bits 0..9 by `value`, which must fit in nine bits.
    pub fn with_pc_offset_9(self, value: usize) -> (out: Self)
        requires
            value <= 0x1ff,
        ensures
            out.0 == spec_with_field(self.0, 0, 9, value as u16),
            spec_field(out.0, 0, 9) == value,
    {
        Self(with_field(self.0, 0, 9, value as u16))
    }

    /// Bits 9..12: the register to store.
    pub fn src(&self) -> (value: usize)
        ensures
            value == spec_field(self.0, 9, 3),
            value <= 0x7,
    {
        field(self.0, 9, 3) as usize
    }

    /// Replaces bits 9..12 by `value`, which must fit in three bits.
    pub fn with_src(self, value: usize) -> (out: Self)
        requires
            value <= 0x7,
        ensures
            out.0 == spec_with_field(self.0, 9, 3, value as u16),
            spec_field(out.0, 9, 3) == value,
    {
        Self(with_field(self.0, 9, 3, value as u16))
    }

    /// Bits 12..16: the opcode.
    pub fn opcode(&self) -> (value: OpCode)
        ensures
            value == OpCode::with_code(spec_field(self.0, 12, 4)),
            value.code() == spec_field(self.0, 12, 4),
    {
        OpCode::from_bits(field(self.0, 12, 4))
    }

    /// Replaces bits 12..16 by the number of `value`.
    pub fn with_opcode(self, value: OpCode) -> (out: Self)
        ensures
            out.0 == spec_with_field(self.0, 12, 4, value.code()),
            spec_field(out.0, 12, 4) == value.code(),
    {
        Self(with_field(self.0, 12, 4, value.into_bits()))
    }

    /// Reading every field of `word` and writing each, as the builders do, into
    /// the all-zero word gives `word` back.
    pub proof fn lemma_round_trip(word: u16)
        ensures
            ({
                let w0 = spec_with_field(0, 0, 9, spec_field(word, 0, 9));
                let w1 = spec_with_field(w0, 9, 3, spec_field(word, 9, 3));
                let w2 = spec_with_field(w1, 12, 4, OpCode::with_code(spec_field(word, 12, 4)).code());
                w2
            }) == word,
    {
        lemma_field_bound(word, 12, 4);
        lemma_rebuild_9_3_4(word);
    }
}

/// Store a register at an address relative to a base register.
#[derive(Clone, Copy, Debug, PartialEq, Eq, Structural)]
pub struct StoreRegister(pub u16);

impl StoreRegister {
    /// The layout over the all-zero word.
    pub fn new() -> (out: Self)
        ensures
            out.0 == 0,
    {
        Self(0)
    }

    /// The layout over `bits`.
    pub fn from_bits(bits: u16) -> (out: Self)
        ensures
            out.0 == bits,
    {
        Self(bits)
    }

    /// The instruction word.
    pub fn into_bits(self) -> (bits: u16)
        ensures
            bits == self.0,
    {
        self.0
    }

    /// Bits 0..6: the offset from the base register, a signed six-bit number.
    pub fn pc_offset_6(&self) -> (value: usize)
        ensures
            value == spec_field(self.0, 0, 6),
            value <= 0x3f,
    {
        field(self.0, 0, 6) as usize
    }

    /// Replaces bits 0..6 by `value`, which must fit in six bits.
    pub fn with_pc_offset_6(self, value: usize) -> (out: Self)
        requires
            value <= 0x3f,
        ensures
            out.0 == spec_with_field(self.0, 0, 6, value as u16),
            spec_field(out.0, 0, 6) == value,
    {
        Self(with_field(self.0, 0, 6, value as u16))
    }

    /// Bits 6..9: the base register.
    pub fn base_register(&self) -> (value: usize)
        ensures
            value == spec_field(self.0, 6, 3),
            value <= 0x7,
    {
        field(self.0, 6, 3) as usize
    }

    /// Replaces bits 6..9 by `value`, which must fit in three bits.
    pub fn with_base_register(self, value: usize) -> (out: Self)
        requires
            value <= 0x7,
        ensures
            out.0 == spec_with_field(self.0, 6, 3, value as u16),
            spec_field(out.0, 6, 3) == value,
    {
        Self(with_field(self.0, 6, 3, value as u16))
    }

    /// Bits 9..12: the register to store.
    pub fn src(&self) -> (value: usize)
        ensures
            value == spec_field(self.0, 9, 3),
            value <= 0x7,
    {
        field(self.0, 9, 3) as usize
    }

    /// Replaces bits 9..12 by `value`, which must fit in three bits.
    pub fn with_src(self, value: usize) -> (out: Self)
        requires
            value <= 0x7,
        ensures
            out.0 == spec_with_field(self.0, 9, 3, value as u16),
            spec_field(out.0, 9, 3) == value,
    {
        Self(with_field(self.0, 9, 3, value as u16))
    }

    /// Bits 12..16: the opcode.
    pub fn opcode(&self) -> (value: OpCode)
        ensures
            value == OpCode::with_code(spec_field(self.0, 12, 4)),
            value.code() == spec_field(self.0, 12, 4),
    {
        OpCode::from_bits(field(self.0, 12, 4))
    }

    /// Replaces bits 12..16 by the number of `value`.
    pub fn with_opcode(self, value: OpCode) -> (out: Self)
        ensures
            out.0 == spec_with_field(self.0, 12, 4, value.code()),
            spec_field(out.0, 12, 4) == value.code(),
    {
        Self(with_field(self.0, 12, 4, value.into_bits()))
    }

    /// Reading every field of `word` and writing each, as the builders do, into
    /// the all-zero word gives `word` back.
    pub proof fn lemma_round_trip(word: u16)
        ensures
            ({
                let w0 = spec_with_field(0, 0, 6, spec_field(word, 0, 6));
                let w1 = spec_with_field(w0, 6, 3, spec_field(word, 6, 3));
                let w2 = spec_with_field(w1, 9, 3, spec_field(word, 9, 3));
                let w3 = spec_with_field(w2, 12, 4, OpCode::with_code(spec_field(word, 12, 4)).code());
                w3
            }) == word,
    {
        lemma_field_bound(word, 12, 4);
        lemma_rebuild_6_3_3_4(word);
    }
}

/// Add two registers.
#[derive(Clone, Copy, Debug, PartialEq, Eq, Structural)]
pub struct Add(pub u16);

impl Add {
    /// The layout over the all-zero word.
    pub fn new() -> (out: Self)
        ensures
            out.0 == 0,
    {
        Self(0)
    }

    /// The layout over `bits`.
    pub fn from_bits(bits: u16) -> (out: Self)
        ensures
            out.0 == bits,
    {
        Self(bits)
    }

    /// The instruction word.
    pub fn into_bits(self) -> (bits: u16)
        ensures
            bits == self.0,
    {
        self.0
    }

    /// Bits 0..3: the second source register.
    pub fn src2(&self) -> (value: usize)
        ensures
            value == spec_field(self.0, 0, 3),
            value <= 0x7,
    {
        field(self.0, 0, 3) as usize
    }

    /// Replaces bits 0..3 by `value`, which must fit in three bits.
    pub fn with_src2(self, value: usize) -> (out: Self)
        requires
            value <= 0x7,
        ensures
            out.0 == spec_with_field(self.0, 0, 3, value as u16),
            spec_field(out.0, 0, 3) == value,
    {
        Self(with_field(self.0, 0, 3, value as u16))
    }

    /// Bits 3..6: the mode bit, clear in this layout, and two unused bits.
    pub fn padding(&self) -> (value: usize)
        ensures
            value == spec_field(self.0, 3, 3),
            value <= 0x7,
    {
        field(self.0, 3, 3) as usize
    }

    /// Replaces bits 3..6 by `value`, which must fit in three bits.
    pub fn with_padding(self, value: usize) -> (out: Self)
        requires
            value <= 0x7,
        ensures
            out.0 == spec_with_field(self.0, 3, 3, value as u16),
            spec_field(out.0, 3, 3) == value,
    {
        Self(with_field(self.0, 3, 3, value as u16))
    }

    /// Bits 6..9: the first source register.
    pub fn src1(&self) -> (value: usize)
        ensures
            value == spec_field(self.0, 6, 3),
            value <= 0x7,
    {
        field(self.0, 6, 3) as usize
    }

    /// Replaces bits 6..9 by `value`, which must fit in three bits.
    pub fn with_src1(self, value: usize) -> (out: Self)
        requires
            value <= 0x7,
        ensures
            out.0 == spec_with_field(self.0, 6, 3, value as u16),
            spec_field(out.0, 6, 3) == value,
    {
        Self(with_field(self.0, 6, 3, value as u16))
    }

    /// Bits 9..12: the destination register.
    pub fn dest(&self) -> (value: usize)
        ensures
            value == spec_field(self.0, 9, 3),
            value <= 0x7,
    {
        field(self.0, 9, 3) as usize
    }

    /// Replaces bits 9..12 by `value`, which must fit in three bits.
    pub fn with_dest(self, value: usize) -> (out: Self)
        requires
            value <= 0x7,
        ensures
            out.0 == spec_with_field(self.0, 9, 3, value as u16),
            spec_field(out.0, 9, 3) == value,
    {
        Self(with_field(self.0, 9, 3, value as u16))
    }

    /// Bits 12..16: the opcode.
    pub fn opcode(&self) -> (value: OpCode)
        ensures
            value == OpCode::with_code(spec_field(self.0, 12, 4)),
            value.code() == spec_field(self.0, 12, 4),
    {
        OpCode::from_bits(field(self.0, 12, 4))
    }

    /// Replaces bits 12..16 by the number of `value`.
    pub fn with_opcode(self, value: OpCode) -> (out: Self)
        ensures
            out.0 == spec_with_field(self.0, 12, 4, value.code()),
            spec_field(out.0, 12, 4) == value.code(),
    {
        Self(with_field(self.0, 12, 4, value.into_bits()))
    }

    /// Reading every field of `word` and writing each, as the builders do, into
    /// the all-zero word gives `word` back.
    pub proof fn lemma_round_trip(word: u16)
        ensures
            ({
                let w0 = spec_with_field(0, 0, 3, spec_field(word, 0, 3));
                let w1 = spec_with_field(w0, 3, 3, spec_field(word, 3, 3));
                let w2 = spec_with_field(w1, 6, 3, spec_field(word, 6, 3));
                let w3 = spec_with_field(w2, 9, 3, spec_field(word, 9, 3));
                let w4 = spec_with_field(w3, 12, 4, OpCode::with_code(spec_field(word, 12, 4)).code());
                w4
            }) == word,
    {
        lemma_field_bound(word, 12, 4);
        lemma_rebuild_3_3_3_3_4(word);
    }
}

/// Add a five-bit signed immediate to a register.
#[derive(Clone, Copy, Debug, PartialEq, Eq, Structural)]
pub struct ImmediateAdd(pub u16);

impl ImmediateAdd {
    /// The layout over the all-zero word.
    pub fn new() -> (out: Self)
        ensures
            out.0 == 0,
    {
        Self(0)
    }

    /// The layout over `bits`.
    pub fn from_bits(bits: u16) -> (out: Self)
        ensures
            out.0 == bits,
    {
        Self(bits)
    }

    /// The instruction word.
    pub fn into_bits(self) -> (bits: u16)
        ensures
            bits == self.0,
    {
        self.0
    }

    /// Bits 0..5: the immediate, a signed five-bit number.
    pub fn imm5(&self) -> (value: usize)
        ensures
            value == spec_field(self.0, 0, 5),
            value <= 0x1f,
    {
        field(self.0, 0, 5) as usize
    }

    /// Replaces bits 0..5 by `value`, which must fit in five bits.
    pub fn with_imm5(self, value: usize) -> (out: Self)
        requires
            value <= 0x1f,
        ensures
            out.0 == spec_with_field(self.0, 0, 5, value as u16),
            spec_field(out.0, 0, 5) == value,
    {
        Self(with_field(self.0, 0, 5, value as u16))
    }

    /// Bit 5: the mode bit: set for an immediate operand, clear for a register.
    pub fn flag(&self) -> (value: bool)
        ensures
            value == (spec_field(self.0, 5, 1) != 0),
            flag_bit(value) == spec_field(self.0, 5, 1),
    {
        field(self.0, 5, 1) != 0
    }

    /// Replaces bit 5 by `value`.
    pub fn with_flag(self, value: bool) -> (out: Self)
        ensures
            out.0 == spec_with_field(self.0, 5, 1, flag_bit(value)),
            spec_field(out.0, 5, 1) == flag_bit(value),
    {
        let bits: u16 = if value {
            1
        } else {
            0
        };
        Self(with_field(self.0, 5, 1, bits))
    }

    /// Bits 6..9: the source register.
    pub fn src(&self) -> (value: usize)
        ensures
            value == spec_field(self.0, 6, 3),
            value <= 0x7,
    {
        field(self.0, 6, 3) as usize
    }

    /// Replaces bits 6..9 by `value`, which must fit in three bits.
    pub fn with_src(self, value: usize) -> (out: Self)
        requires
            value <= 0x7,
        ensures
            out.0 == spec_with_field(self.0, 6, 3, value as u16),
            spec_field(out.0, 6, 3) == value,
    {
        Self(with_field(self.0, 6, 3, value as u16))
    }

    /// Bits 9..12: the destination register.
    pub fn dest(&self) -> (value: usize)
        ensures
            value == spec_field(self.0, 9, 3),
            value <= 0x7,
    {
        field(self.0, 9, 3) as usize
    }

    /// Replaces bits 9..12 by `value`, which must fit in three bits.
    pub fn with_dest(self, value: usize) -> (out: Self)
        requires
            value <= 0x7,
        ensures
            out.0 == spec_with_field(self.0, 9, 3, value as u16),
            spec_field(out.0, 9, 3) == value,
    {
        Self(with_field(self.0, 9, 3, value as u16))
    }

    /// Bits 12..16: the opcode.
    pub fn opcode(&self) -> (value: OpCode)
        ensures
            value == OpCode::with_code(spec_field(self.0, 12, 4)),
            value.code() == spec_field(self.0, 12, 4),
    {
        OpCode::from_bits(field(self.0, 12, 4))
    }

    /// Replaces bits 12..16 by the number of `value`.
    pub fn with_opcode(self, value: OpCode) -> (out: Self)
        ensures
            out.0 == spec_with_field(self.0, 12, 4, value.code()),
            spec_field(out.0, 12, 4) == value.code(),
    {
        Self(with_field(self.0, 12, 4, value.into_bits()))
    }

    /// Reading every field of `word` and writing each, as the builders do, into
    /// the all-zero word gives `word` back.
    pub proof fn lemma_round_trip(word: u16)
        ensures
            ({
                let w0 = spec_with_field(0, 0, 5, spec_field(word, 0, 5));
                let w1 = spec_with_field(w0, 5, 1, flag_bit(spec_field(word, 5, 1) != 0));
                let w2 = spec_with_field(w1, 6, 3, spec_field(word, 6, 3));
                let w3 = spec_with_field(w2, 9, 3, spec_field(word, 9, 3));
                let w4 = spec_with_field(w3, 12, 4, OpCode::with_code(spec_field(word, 12, 4)).code());
                w4
            }) == word,
    {
        lemma_field_bound(word, 5, 1);
        lemma_field_bound(word, 12, 4);
        lemma_rebuild_5_1_3_3_4(word);
    }
}

/// Load a register from the address held in a word that lies relative to the
/// program counter.
#[derive(Clone, Copy, Debug, PartialEq, Eq, Structural)]
pub struct LoadIndirect(pub u16);

impl LoadIndirect {
    /// The layout over the all-zero word.
    pub fn new() -> (out: Self)
        ensures
            out.0 == 0,
    {
        Self(0)
    }

    /// The layout over `bits`.
    pub fn from_bits(bits: u16) -> (out: Self)
        ensures
            out.0 == bits,
    {
        Self(bits)
    }

    /// The instruction word.
    pub fn into_bits(self) -> (bits: u16)
        ensures
            bits == self.0,
    {
        self.0
    }

    /// Bits 0..9: the offset from the program counter, a signed nine-bit number.
    pub fn pc_offset_9(&self) -> (value: usize)
        ensures
            value == spec_field(self.0, 0, 9),
            value <= 0x1ff,
    {
        field(self.0, 0, 9) as usize
    }

    /// Replaces bits 0..9 by `value`, which must fit in nine bits.
    pub fn with_pc_offset_9(self, value: usize) -> (out: Self)
        requires
            value <= 0x1ff,
        ensures
            out.0 == spec_with_field(self.0, 0, 9, value as u16),
            spec_field(out.0, 0, 9) == value,
    {
        Self(with_field(self.0, 0, 9, value as u16))
    }

    /// Bits 9..12: the destination register.
    pub fn dest(&self) -> (value: usize)
        ensures
            value == spec_field(self.0, 9, 3),
            value <= 0x7,
    {
        field(self.0, 9, 3) as usize
    }

    /// Replaces bits 9..12 by `value`, which must fit in three bits.
    pub fn with_dest(self, value: usize) -> (out: Self)
        requires
            value <= 0x7,
        ensures
            out.0 == spec_with_field(self.0, 9, 3, value as u16),
            spec_field(out.0, 9, 3) == value,
    {
        Self(with_field(self.0, 9, 3, value as u16))
    }

    /// Bits 12..16: the opcode.
    pub fn opcode(&self) -> (value: OpCode)
        ensures
            value == OpCode::with_code(spec_field(self.0, 12, 4)),
            value.code() == spec_field(self.0, 12, 4),
    {
        OpCode::from_bits(field(self.0, 12, 4))
    }

    /// Replaces bits 12..16 by the number of `value`.
    pub fn with_opcode(self, value: OpCode) -> (out: Self)
        ensures
            out.0 == spec_with_field(self.0, 12, 4, value.code()),
            spec_field(out.0, 12, 4) == value.code(),
    {
        Self(with_field(self.0, 12, 4, value.into_bits()))
    }

    /// Reading every field of `word` and writing each, as the builders do, into
    /// the all-zero word gives `word` back.
    pub proof fn lemma_round_trip(word: u16)
        ensures
            ({
                let w0 = spec_with_field(0, 0, 9, spec_field(word, 0, 9));
                let w1 = spec_with_field(w0, 9, 3, spec_field(word, 9, 3));
                let w2 = spec_with_field(w1, 12, 4, OpCode::with_code(spec_field(word, 12, 4)).code());
                w2
            }) == word,
    {
        lemma_field_bound(word, 12, 4);
        lemma_rebuild_9_3_4(word);
    }
}

/// Bitwise AND of a register and a five-bit signed immediate.
#[derive(Clone, Copy, Debug, PartialEq, Eq, Structural)]
pub struct ImmediateAnd(pub u16);

impl ImmediateAnd {
    /// The layout over the all-zero word.
    pub fn new() -> (out: Self)
        ensures
            out.0 == 0,
    {
        Self(0)
    }

    /// The layout over `bits`.
    pub fn from_bits(bits: u16) -> (out: Self)
        ensures
            out.0 == bits,
    {
        Self(bits)
    }

    /// The instruction word.
    pub fn into_bits(self) -> (bits: u16)
        ensures
            bits == self.0,
    {
        self.0
    }

    /// Bits 0..5: the immediate, a signed five-bit number.
    pub fn imm5(&self) -> (value: usize)
        ensures
            value == spec_field(self.0, 0, 5),
            value <= 0x1f,
    {
        field(self.0, 0, 5) as usize
    }

    /// Replaces bits 0..5 by `value`, which must fit in five bits.
    pub fn with_imm5(self, value: usize) -> (out: Self)
        requires
            value <= 0x1f,
        ensures
            out.0 == spec_with_field(self.0, 0, 5, value as u16),
            spec_field(out.0, 0, 5) == value,
    {
        Self(with_field(self.0, 0, 5, value as u16))
    }

    /// Bit 5: the mode bit: set for an immediate operand, clear for a register.
    pub fn flag(&self) -> (value: bool)
        ensures
            value == (spec_field(self.0, 5, 1) != 0),
            flag_bit(value) == spec_field(self.0, 5, 1),
    {
        field(self.0, 5, 1) != 0
    }

    /// Replaces bit 5 by `value`.
    pub fn with_flag(self, value: bool) -> (out: Self)
        ensures
            out.0 == spec_with_field(self.0, 5, 1, flag_bit(value)),
            spec_field(out.0, 5, 1) == flag_bit(value),
    {
        let bits: u16 = if value {
            1
        } else {
            0
        };
        Self(with_field(self.0, 5, 1, bits))
    }

    /// Bits 6..9: the source register.
    pub fn src(&self) -> (value: usize)
        ensures
            value == spec_field(self.0, 6, 3),
            value <= 0x7,
    {
        field(self.0, 6, 3) as usize
    }

    /// Replaces bits 6..9 by `value`, which must fit in three bits.
    pub fn with_src(self, value: usize) -> (out: Self)
        requires
            value <= 0x7,
        ensures
            out.0 == spec_with_field(self.0, 6, 3, value as u16),
            spec_field(out.0, 6, 3) == value,
    {
        Self(with_field(self.0, 6, 3, value as u16))
    }

    /// Bits 9..12: the destination register.
    pub fn dest(&self) -> (value: usize)
        ensures
            value == spec_field(self.0, 9, 3),
            value <= 0x7,
    {
        field(self.0, 9, 3) as usize
    }

    /// Replaces bits 9..12 by `value`, which must fit in three bits.
    pub fn with_dest(self, value: usize) -> (out: Self)
        requires
            value <= 0x7,
        ensures
            out.0 == spec_with_field(self.0, 9, 3, value as u16),
            spec_field(out.0, 9, 3) == value,
    {
        Self(with_field(self.0, 9, 3, value as u16))
    }

    /// Bits 12..16: the opcode.
    pub fn opcode(&self) -> (value: OpCode)
        ensures
            value == OpCode::with_code(spec_field(self.0, 12, 4)),
            value.code() == spec_field(self.0, 12, 4),
    {
        OpCode::from_bits(field(self.0, 12, 4))
    }

    /// Replaces bits 12..16 by the number of `value`.
    pub fn with_opcode(self, value: OpCode) -> (out: Self)
        ensures
            out.0 == spec_with_field(self.0, 12, 4, value.code()),
            spec_field(out.0, 12, 4) == value.code(),
    {
        Self(with_field(self.0, 12, 4, value.into_bits()))
    }

    /// Reading every field of `word` and writing each, as the builders do, into
    /// the all-zero word gives `word` back.
    pub proof fn lemma_round_trip(word: u16)
        ensures
            ({
                let w0 = spec_with_field(0, 0, 5, spec_field(word, 0, 5));
                let w1 = spec_with_field(w0, 5, 1, flag_bit(spec_field(word, 5, 1) != 0));
                let w2 = spec_with_field(w1, 6, 3, spec_field(word, 6, 3));
                let w3 = spec_with_field(w2, 9, 3, spec_field(word, 9, 3));
                let w4 = spec_with_field(w3, 12, 4, OpCode::with_code(spec_field(word, 12, 4)).code());
                w4
            }) == word,
    {
        lemma_field_bound(word, 5, 1);
        lemma_field_bound(word, 12, 4);
        lemma_rebuild_5_1_3_3_4(word);
    }
}

/// Bitwise AND of two registers.
#[derive(Clone, Copy, Debug, PartialEq, Eq, Structural)]
pub struct And(pub u16);

impl And {
    /// The layout over the all-zero word.
    pub fn new() -> (out: Self)
        ensures
            out.0 == 0,
    {
        Self(0)
    }

    /// The layout over `bits`.
    pub fn from_bits(bits: u16) -> (out: Self)
        ensures
            out.0 == bits,
    {
        Self(bits)
    }

    /// The instruction word.
    pub fn into_bits(self) -> (bits: u16)
        ensures
            bits == self.0,
    {
        self.0
    }

    /// Bits 0..3: the second source register.
    pub fn src2(&self) -> (value: usize)
        ensures
            value == spec_field(self.0, 0, 3),
            value <= 0x7,
    {
        field(self.0, 0, 3) as usize
    }

    /// Replaces bits 0..3 by `value`, which must fit in three bits.
    pub fn with_src2(self, value: usize) -> (out: Self)
        requires
            value <= 0x7,
        ensures
            out.0 == spec_with_field(self.0, 0, 3, value as u16),
            spec_field(out.0, 0, 3) == value,
    {
        Self(with_field(self.0, 0, 3, value as u16))
    }

    /// Bits 3..6: the mode bit, clear in this layout, and two unused bits.
    pub fn padding(&self) -> (value: usize)
        ensures
            value == spec_field(self.0, 3, 3),
            value <= 0x7,
    {
        field(self.0, 3, 3) as usize
    }

    /// Replaces bits 3..6 by `value`, which must fit in three bits.
    pub fn with_padding(self, value: usize) -> (out: Self)
        requires
            value <= 0x7,
        ensures
            out.0 == spec_with_field(self.0, 3, 3, value as u16),
            spec_field(out.0, 3, 3) == value,
    {
        Self(with_field(self.0, 3, 3, value as u16))
    }

    /// Bits 6..9: the first source register.
    pub fn src1(&self) -> (value: usize)
        ensures
            value == spec_field(self.0, 6, 3),
            value <= 0x7,
    {
        field(self.0, 6, 3) as usize
    }

    /// Replaces bits 6..9 by `value`, which must fit in three bits.
    pub fn with_src1(self, value: usize) -> (out: Self)
        requires
            value <= 0x7,
        ensures
            out.0 == spec_with_field(self.0, 6, 3, value as u16),
            spec_field(out.0, 6, 3) == value,
    {
        Self(with_field(self.0, 6, 3, value as u16))
    }

    /// Bits 9..12: the destination register.
    pub fn dest(&self) -> (value: usize)
        ensures
            value == spec_field(self.0, 9, 3),
            value <= 0x7,
    {
        field(self.0, 9, 3) as usize
    }

    /// Replaces bits 9..12 by `value`, which must fit in three bits.
    pub fn with_dest(self, value: usize) -> (out: Self)
        requires
            value <= 0x7,
        ensures
            out.0 == spec_with_field(self.0, 9, 3, value as u16),
            spec_field(out.0, 9, 3) == value,
    {
        Self(with_field(self.0, 9, 3, value as u16))
    }

    /// Bits 12..16: the opcode.
    pub fn opcode(&self) -> (value: OpCode)
        ensures
            value == OpCode::with_code(spec_field(self.0, 12, 4)),
            value.code() == spec_field(self.0, 12, 4),
    {
        OpCode::from_bits(field(self.0, 12, 4))
    }

    /// Replaces bits 12..16 by the number of `value`.
    pub fn with_opcode(self, value: OpCode) -> (out: Self)
        ensures
            out.0 == spec_with_field(self.0, 12, 4, value.code()),
            spec_field(out.0, 12, 4) == value.code(),
    {
        Self(with_field(self.0, 12, 4, value.into_bits()))
    }

    /// Reading every field of `word` and writing each, as the builders do, into
    /// the all-zero word gives `word` back.
    pub proof fn lemma_round_trip(word: u16)
        ensures
            ({
                let w0 = spec_with_field(0, 0, 3, spec_field(word, 0, 3));
                let w1 = spec_with_field(w0, 3, 3, spec_field(word, 3, 3));
                let w2 = spec_with_field(w1, 6, 3, spec_field(word, 6, 3));
                let w3 = spec_with_field(w2, 9, 3, spec_field(word, 9, 3));
                let w4 = spec_with_field(w3, 12, 4, OpCode::with_code(spec_field(word, 12, 4)).code());
                w4
            }) == word,
    {
        lemma_field_bound(word, 12, 4);
        lemma_rebuild_3_3_3_3_4(word);
    }
}

/// Branch relative to the program counter if a requested condition flag is set.
#[derive(Clone, Copy, Debug, PartialEq, Eq, Structural)]
pub struct Branch(pub u16);

impl Branch {
    /// The layout over the all-zero word.
    pub fn new() -> (out: Self)
        ensures
            out.0 == 0,
    {
        Self(0)
    }

    /// The layout over `bits`.
    pub fn from_bits(bits: u16) -> (out: Self)
        ensures
            out.0 == bits,
    {
        Self(bits)
    }

    /// The instruction word.
    pub fn into_bits(self) -> (bits: u16)
        ensures
            bits == self.0,
    {
        self.0
    }

    /// Bits 0..9: the offset from the program counter, a signed nine-bit number.
    pub fn pc_offset_9(&self) -> (value: usize)
        ensures
            value == spec_field(self.0, 0, 9),
            value <= 0x1ff,
    {
        field(self.0, 0, 9) as usize
    }

    /// Replaces bits 0..9 by `value`, which must fit in nine bits.
    pub fn with_pc_offset_9(self, value: usize) -> (out: Self)
        requires
            value <= 0x1ff,
        ensures
            out.0 == spec_with_field(self.0, 0, 9, value as u16),
            spec_field(out.0, 0, 9) == value,
    {
        Self(with_field(self.0, 0, 9, value as u16))
    }

    /// Bit 9: whether the branch is taken on a positive result.
    pub fn p(&self) -> (value: bool)
        ensures
            value == (spec_field(self.0, 9, 1) != 0),
            flag_bit(value) == spec_field(self.0, 9, 1),
    {
        field(self.0, 9, 1) != 0
    }

    /// Replaces bit 9 by `value`.
    pub fn with_p(self, value: bool) -> (out: Self)
        ensures
            out.0 == spec_with_field(self.0, 9, 1, flag_bit(value)),
            spec_field(out.0, 9, 1) == flag_bit(value),
    {
        let bits: u16 = if value {
            1
        } else {
            0
        };
        Self(with_field(self.0, 9, 1, bits))
    }

    /// Bit 10: whether the branch is taken on a zero result.
    pub fn z(&self) -> (value: bool)
        ensures
            value == (spec_field(self.0, 10, 1) != 0),
            flag_bit(value) == spec_field(self.0, 10, 1),
    {
        field(self.0, 10, 1) != 0
    }

    /// Replaces bit 10 by `value`.
    pub fn with_z(self, value: bool) -> (out: Self)
        ensures
            out.0 == spec_with_field(self.0, 10, 1, flag_bit(value)),
            spec_field(out.0, 10, 1) == flag_bit(value),
    {
        let bits: u16 = if value {
            1
        } else {
            0
        };
        Self(with_field(self.0, 10, 1, bits))
    }

    /// Bit 11: whether the branch is taken on a negative result.
    pub fn n(&self) -> (value: bool)
        ensures
            value == (spec_field(self.0, 11, 1) != 0),
            flag_bit(value) == spec_field(self.0, 11, 1),
    {
        field(self.0, 11, 1) != 0
    }

    /// Replaces bit 11 by `value`.
    pub fn with_n(self, value: bool) -> (out: Self)
        ensures
            out.0 == spec_with_field(self.0, 11, 1, flag_bit(value)),
            spec_field(out.0, 11, 1) == flag_bit(value),
    {
        let bits: u16 = if value {
            1
        } else {
            0
        };
        Self(with_field(self.0, 11, 1, bits))
    }

    /// Bits 12..16: the opcode.
    pub fn opcode(&self) -> (value: OpCode)
        ensures
            value == OpCode::with_code(spec_field(self.0, 12, 4)),
            value.code() == spec_field(self.0, 12, 4),
    {
        OpCode::from_bits(field(self.0, 12, 4))
    }

    /// Replaces bits 12..16 by the number of `value`.
    pub fn with_opcode(self, value: OpCode) -> (out: Self)
        ensures
            out.0 == spec_with_field(self.0, 12, 4, value.code()),
            spec_field(out.0, 12, 4) == value.code(),
    {
        Self(with_field(self.0, 12, 4, value.into_bits()))
    }

    /// Reading every field of `word` and writing each, as the builders do, into
    /// the all-zero word gives `word` back.
    pub proof fn lemma_round_trip(word: u16)
        ensures
            ({
                let w0 = spec_with_field(0, 0, 9, spec_field(word, 0, 9));
                let w1 = spec_with_field(w0, 9, 1, flag_bit(spec_field(word, 9, 1) != 0));
                let w2 = spec_with_field(w1, 10, 1, flag_bit(spec_field(word, 10, 1) != 0));
                let w3 = spec_with_field(w2, 11, 1, flag_bit(spec_field(word, 11, 1) != 0));
                let w4 = spec_with_field(w3, 12, 4, OpCode::with_code(spec_field(word, 12, 4)).code());
                w4
            }) == word,
    {
        lemma_field_bound(word, 9, 1);
        lemma_field_bound(word, 10, 1);
        lemma_field_bound(word, 11, 1);
        lemma_field_bound(word, 12, 4);
        lemma_rebuild_9_1_1_1_4(word);
    }
}

/// Jump to the address held in a register.
#[derive(Clone, Copy, Debug, PartialEq, Eq, Structural)]
pub struct Jump(pub u16);

impl Jump {
    /// The layout over the all-zero word.
    pub fn new() -> (out: Self)
        ensures
            out.0 == 0,
    {
        Self(0)
    }

    /// The layout over `bits`.
    pub fn from_bits(bits: u16) -> (out: Self)
        ensures
            out.0 == bits,
    {
        Self(bits)
    }

    /// The instruction word.
    pub fn into_bits(self) -> (bits: u16)
        ensures
            bits == self.0,
    {
        self.0
    }

    /// Bits 0..6: unused bits.
    pub fn padding(&self) -> (value: usize)
        ensures
            value == spec_field(self.0, 0, 6),
            value <= 0x3f,
    {
        field(self.0, 0, 6) as usize
    }

    /// Replaces bits 0..6 by `value`, which must fit in six bits.
    pub fn with_padding(self, value: usize) -> (out: Self)
        requires
            value <= 0x3f,
        ensures
            out.0 == spec_with_field(self.0, 0, 6, value as u16),
            spec_field(out.0, 0, 6) == value,
    {
        Self(with_field(self.0, 0, 6, value as u16))
    }

    /// Bits 6..9: the register that holds the target.
    pub fn base_register(&self) -> (value: usize)
        ensures
            value == spec_field(self.0, 6, 3),
            value <= 0x7,
    {
        field(self.0, 6, 3) as usize
    }

    /// Replaces bits 6..9 by `value`, which must fit in three bits.
    pub fn with_base_register(self, value: usize) -> (out: Self)
        requires
            value <= 0x7,
        ensures
            out.0 == spec_with_field(self.0, 6, 3, value as u16),
            spec_field(out.0, 6, 3) == value,
    {
        Self(with_field(self.0, 6, 3, value as u16))
    }

    /// Bits 9..12: unused bits.
    pub fn padding2(&self) -> (value: usize)
        ensures
            value == spec_field(self.0, 9, 3),
            value <= 0x7,
    {
        field(self.0, 9, 3) as usize
    }

    /// Replaces bits 9..12 by `value`, which must fit in three bits.
    pub fn with_padding2(self, value: usize) -> (out: Self)
        requires
            value <= 0x7,
        ensures
            out.0 == spec_with_field(self.0, 9, 3, value as u16),
            spec_field(out.0, 9, 3) == value,
    {
        Self(with_field(self.0, 9, 3, value as u16))
    }

    /// Bits 12..16: the opcode.
    pub fn opcode(&self) -> (value: OpCode)
        ensures
            value == OpCode::with_code(spec_field(self.0, 12, 4)),
            value.code() == spec_field(self.0, 12, 4),
    {
        OpCode::from_bits(field(self.0, 12, 4))
    }

    /// Replaces bits 12..16 by the number of `value`.
    pub fn with_opcode(self, value: OpCode) -> (out: Self)
        ensures
            out.0 == spec_with_field(self.0, 12, 4, value.code()),
            spec_field(out.0, 12, 4) == value.code(),
    {
        Self(with_field(self.0, 12, 4, value.into_bits()))
    }

    /// Reading every field of `word` and writing each, as the builders do, into
    /// the all-zero word gives `word` back.
    pub proof fn lemma_round_trip(word: u16)
        ensures
            ({
                let w0 = spec_with_field(0, 0, 6, spec_field(word, 0, 6));
                let w1 = spec_with_field(w0, 6, 3, spec_field(word, 6, 3));
                let w2 = spec_with_field(w1, 9, 3, spec_field(word, 9, 3));
                let w3 = spec_with_field(w2, 12, 4, OpCode::with_code(spec_field(word, 12, 4)).code());
                w3
            }) == word,
    {
        lemma_field_bound(word, 12, 4);
        lemma_rebuild_6_3_3_4(word);
    }
}

/// Call the subroutine at an address relative to the program counter.
#[derive(Clone, Copy, Debug, PartialEq, Eq, Structural)]
pub struct JumpSubRoutine(pub u16);

impl JumpSubRoutine {
    /// The layout over the all-zero word.
    pub fn new() -> (out: Self)
        ensures
            out.0 == 0,
    {
        Self(0)
    }

    /// The layout over `bits`.
    pub fn from_bits(bits: u16) -> (out: Self)
        ensures
            out.0 == bits,
    {
        Self(bits)
    }

    /// The instruction word.
    pub fn into_bits(self) -> (bits: u16)
        ensures
            bits == self.0,
    {
        self.0
    }

    /// Bits 0..11: the offset from the program counter, a signed eleven-bit number.
    pub fn pc_offset_11(&self) -> (value: usize)
        ensures
            value == spec_field(self.0, 0, 11),
            value <= 0x7ff,
    {
        field(self.0, 0, 11) as usize
    }

    /// Replaces bits 0..11 by `value`, which must fit in eleven bits.
    pub fn with_pc_offset_11(self, value: usize) -> (out: Self)
        requires
            value <= 0x7ff,
        ensures
            out.0 == spec_with_field(self.0, 0, 11, value as u16),
            spec_field(out.0, 0, 11) == value,
    {
        Self(with_field(self.0, 0, 11, value as u16))
    }

    /// Bit 11: the mode bit: set for an offset, clear for a base register.
    pub fn flag(&self) -> (value: bool)
        ensures
            value == (spec_field(self.0, 11, 1) != 0),
            flag_bit(value) == spec_field(self.0, 11, 1),
    {
        field(self.0, 11, 1) != 0
    }

    /// Replaces bit 11 by `value`.
    pub fn with_flag(self, value: bool) -> (out: Self)
        ensures
            out.0 == spec_with_field(self.0, 11, 1, flag_bit(value)),
            spec_field(out.0, 11, 1) == flag_bit(value),
    {
        let bits: u16 = if value {
            1
        } else {
            0
        };
        Self(with_field(self.0, 11, 1, bits))
    }

    /// Bits 12..16: the opcode.
    pub fn opcode(&self) -> (value: OpCode)
        ensures
            value == OpCode::with_code(spec_field(self.0, 12, 4)),
            value.code() == spec_field(self.0, 12, 4),
    {
        OpCode::from_bits(field(self.0, 12, 4))
    }

    /// Replaces bits 12..16 by the number of `value`.
    pub fn with_opcode(self, value: OpCode) -> (out: Self)
        ensures
            out.0 == spec_with_field(self.0, 12, 4, value.code()),
            spec_field(out.0, 12, 4) == value.code(),
    {
        Self(with_field(self.0, 12, 4, value.into_bits()))
    }

    /// Reading every field of `word` and writing each, as the builders do, into
    /// the all-zero word gives `word` back.
    pub proof fn lemma_round_trip(word: u16)
        ensures
            ({
                let w0 = spec_with_field(0, 0, 11, spec_field(word, 0, 11));
                let w1 = spec_with_field(w0, 11, 1, flag_bit(spec_field(word, 11, 1) != 0));
                let w2 = spec_with_field(w1, 12, 4, OpCode::with_code(spec_field(word, 12, 4)).code());
                w2
            }) == word,
    {
        lemma_field_bound(word, 11, 1);
        lemma_field_bound(word, 12, 4);
        lemma_rebuild_11_1_4(word);
    }
}

/// Call the subroutine at the address held in a register.
#[derive(Clone, Copy, Debug, PartialEq, Eq, Structural)]
pub struct JumpSubRoutineRegister(pub u16);

impl JumpSubRoutineRegister {
    /// The layout over the all-zero word.
    pub fn new() -> (out: Self)
        ensures
            out.0 == 0,
    {
        Self(0)
    }

    /// The layout over `bits`.
    pub fn from_bits(bits: u16) -> (out: Self)
        ensures
            out.0 == bits,
    {
        Self(bits)
    }

    /// The instruction word.
    pub fn into_bits(self) -> (bits: u16)
        ensures
            bits == self.0,
    {
        self.0
    }

    /// Bits 0..6: unused bits.
    pub fn padding(&self) -> (value: usize)
        ensures
            value == spec_field(self.0, 0, 6),
            value <= 0x3f,
    {
        field(self.0, 0, 6) as usize
    }

    /// Replaces bits 0..6 by `value`, which must fit in six bits.
    pub fn with_padding(self, value: usize) -> (out: Self)
        requires
            value <= 0x3f,
        ensures
            out.0 == spec_with_field(self.0, 0, 6, value as u16),
            spec_field(out.0, 0, 6) == value,
    {
        Self(with_field(self.0, 0, 6, value as u16))
    }

    /// Bits 6..9: the register that holds the target.
    pub fn base_register(&self) -> (value: usize)
        ensures
            value == spec_field(self.0, 6, 3),
            value <= 0x7,
    {
        field(self.0, 6, 3) as usize
    }

    /// Replaces bits 6..9 by `value`, which must fit in three bits.
    pub fn with_base_register(self, value: usize) -> (out: Self)
        requires
            value <= 0x7,
        ensures
            out.0 == spec_with_field(self.0, 6, 3, value as u16),
            spec_field(out.0, 6, 3) == value,
    {
        Self(with_field(self.0, 6, 3, value as u16))
    }

    /// Bits 9..12: the mode bit, clear in this layout, and two unused bits.
    pub fn padding1(&self) -> (value: usize)
        ensures
            value == spec_field(self.0, 9, 3),
            value <= 0x7,
    {
        field(self.0, 9, 3) as usize
    }

    /// Replaces bits 9..12 by `value`, which must fit in three bits.
    pub fn with_padding1(self, value: usize) -> (out: Self)
        requires
            value <= 0x7,
        ensures
            out.0 == spec_with_field(self.0, 9, 3, value as u16),
            spec_field(out.0, 9, 3) == value,
    {
        Self(with_field(self.0, 9, 3, value as u16))
    }

    /// Bits 12..16: the opcode.
    pub fn opcode(&self) -> (value: OpCode)
        ensures
            value == OpCode::with_code(spec_field(self.0, 12, 4)),
            value.code() == spec_field(self.0, 12, 4),
    {
        OpCode::from_bits(field(self.0, 12, 4))
    }

    /// Replaces bits 12..16 by the number of `value`.
    pub fn with_opcode(self, value: OpCode) -> (out: Self)
        ensures
            out.0 == spec_with_field(self.0, 12, 4, value.code()),
            spec_field(out.0, 12, 4) == value.code(),
    {
        Self(with_field(self.0, 12, 4, value.into_bits()))
    }

    /// Reading every field of `word` and writing each, as the builders do, into
    /// the all-zero word gives `word` back.
    pub proof fn lemma_round_trip(word: u16)
        ensures
            ({
                let w0 = spec_with_field(0, 0, 6, spec_field(word, 0, 6));
                let w1 = spec_with_field(w0, 6, 3, spec_field(word, 6, 3));
                let w2 = spec_with_field(w1, 9, 3, spec_field(word, 9, 3));
                let w3 = spec_with_field(w2, 12, 4, OpCode::with_code(spec_field(word, 12, 4)).code());
                w3
            }) == word,
    {
        lemma_field_bound(word, 12, 4);
        lemma_rebuild_6_3_3_4(word);
    }
}

/// Load a register from an address relative to the program counter.
#[derive(Clone, Copy, Debug, PartialEq, Eq, Structural)]
pub struct Load(pub u16);

impl Load {
    /// The layout over the all-zero word.
    pub fn new() -> (out: Self)
        ensures
            out.0 == 0,
    {
        Self(0)
    }

    /// The layout over `bits`.
    pub fn from_bits(bits: u16) -> (out: Self)
        ensures
            out.0 == bits,
    {
        Self(bits)
    }

    /// The instruction word.
    pub fn into_bits(self) -> (bits: u16)
        ensures
            bits == self.0,
    {
        self.0
    }

    /// Bits 0..9: the offset from the program counter, a signed nine-bit number.
    pub fn pc_offset_9(&self) -> (value: usize)
        ensures
            value == spec_field(self.0, 0, 9),
            value <= 0x1ff,
    {
        field(self.0, 0, 9) as usize
    }

    /// Replaces bits 0..9 by `value`, which must fit in nine bits.
    pub fn with_pc_offset_9(self, value: usize) -> (out: Self)
        requires
            value <= 0x1ff,
        ensures
            out.0 == spec_with_field(self.0, 0, 9, value as u16),
            spec_field(out.0, 0, 9) == value,
    {
        Self(with_field(self.0, 0, 9, value as u16))
    }

    /// Bits 9..12: the destination register.
    pub fn dest(&self) -> (value: usize)
        ensures
            value == spec_field(self.0, 9, 3),
            value <= 0x7,
    {
        field(self.0, 9, 3) as usize
    }

    /// Replaces bits 9..12 by `value`, which must fit in three bits.
    pub fn with_dest(self, value: usize) -> (out: Self)
        requires
            value <= 0x7,
        ensures
            out.0 == spec_with_field(self.0, 9, 3, value as u16),
            spec_field(out.0, 9, 3) == value,
    {
        Self(with_field(self.0, 9, 3, value as u16))
    }

    /// Bits 12..16: the opcode.
    pub fn opcode(&self) -> (value: OpCode)
        ensures
            value == OpCode::with_code(spec_field(self.0, 12, 4)),
            value.code() == spec_field(self.0, 12, 4),
    {
        OpCode::from_bits(field(self.0, 12, 4))
    }

    /// Replaces bits 12..16 by the number of `value`.
    pub fn with_opcode(self, value: OpCode) -> (out: Self)
        ensures
            out.0 == spec_with_field(self.0, 12, 4, value.code()),
            spec_field(out.0, 12, 4) == value.code(),
    {
        Self(with_field(self.0, 12, 4, value.into_bits()))
    }

    /// Reading every field of `word` and writing each, as the builders do, into
    /// the all-zero word gives `word` back.
    pub proof fn lemma_round_trip(word: u16)
        ensures
            ({
                let w0 = spec_with_field(0, 0, 9, spec_field(word, 0, 9));
                let w1 = spec_with_field(w0, 9, 3, spec_field(word, 9, 3));
                let w2 = spec_with_field(w1, 12, 4, OpCode::with_code(spec_field(word, 12, 4)).code());
                w2
            }) == word,
    {
        lemma_field_bound(word, 12, 4);
        lemma_rebuild_9_3_4(word);
    }
}

/// Load a register from an address relative to a base register.
#[derive(Clone, Copy, Debug, PartialEq, Eq, Structural)]
pub struct LoadRegister(pub u16);

impl LoadRegister {
    /// The layout over the all-zero word.
    pub fn new() -> (out: Self)
        ensures
            out.0 == 0,
    {
        Self(0)
    }

    /// The layout over `bits`.
    pub fn from_bits(bits: u16) -> (out: Self)
        ensures
            out.0 == bits,
    {
        Self(bits)
    }

    /// The instruction word.
    pub fn into_bits(self) -> (bits: u16)
        ensures
            bits == self.0,
    {
        self.0
    }

    /// Bits 0..6: the offset from the base register, a signed six-bit number.
    pub fn pc_offset_6(&self) -> (value: usize)
        ensures
            value == spec_field(self.0, 0, 6),
            value <= 0x3f,
    {
        field(self.0, 0, 6) as usize
    }

    /// Replaces bits 0..6 by `value`, which must fit in six bits.
    pub fn with_pc_offset_6(self, value: usize) -> (out: Self)
        requires
            value <= 0x3f,
        ensures
            out.0 == spec_with_field(self.0, 0, 6, value as u16),
            spec_field(out.0, 0, 6) == value,
    {
        Self(with_field(self.0, 0, 6, value as u16))
    }

    /// Bits 6..9: the base register.
    pub fn base_register(&self) -> (value: usize)
        ensures
            value == spec_field(self.0, 6, 3),
            value <= 0x7,
    {
        field(self.0, 6, 3) as usize
    }

    /// Replaces bits 6..9 by `value`, which must fit in three bits.
    pub fn with_base_register(self, value: usize) -> (out: Self)
        requires
            value <= 0x7,
        ensures
            out.0 == spec_with_field(self.0, 6, 3, value as u16),
            spec_field(out.0, 6, 3) == value,
    {
        Self(with_field(self.0, 6, 3, value as u16))
    }

    /// Bits 9..12: the destination register.
    pub fn dest(&self) -> (value: usize)
        ensures
            value == spec_field(self.0, 9, 3),
            value <= 0x7,
    {
        field(self.0, 9, 3) as usize
    }

    /// Replaces bits 9..12 by `value`, which must fit in three bits.
    pub fn with_dest(self, value: usize) -> (out: Self)
        requires
            value <= 0x7,
        ensures
            out.0 == spec_with_field(self.0, 9, 3, value as u16),
            spec_field(out.0, 9, 3) == value,
    {
        Self(with_field(self.0, 9, 3, value as u16))
    }

    /// Bits 12..16: the opcode.
    pub fn opcode(&self) -> (value: OpCode)
        ensures
            value == OpCode::with_code(spec_field(self.0, 12, 4)),
            value.code() == spec_field(self.0, 12, 4),
    {
        OpCode::from_bits(field(self.0, 12, 4))
    }

    /// Replaces bits 12..16 by the number of `value`.
    pub fn with_opcode(self, value: OpCode) -> (out: Self)
        ensures
            out.0 == spec_with_field(self.0, 12, 4, value.code()),
            spec_field(out.0, 12, 4) == value.code(),
    {
        Self(with_field(self.0, 12, 4, value.into_bits()))
    }

    /// Reading every field of `word` and writing each, as the builders do, into
    /// the all-zero word gives `word` back.
    pub proof fn lemma_round_trip(word: u16)
        ensures
            ({
                let w0 = spec_with_field(0, 0, 6, spec_field(word, 0, 6));
                let w1 = spec_with_field(w0, 6, 3, spec_field(word, 6, 3));
                let w2 = spec_with_field(w1, 9, 3, spec_field(word, 9, 3));
                let w3 = spec_with_field(w2, 12, 4, OpCode::with_code(spec_field(word, 12, 4)).code());
                w3
            }) == word,
    {
        lemma_field_bound(word, 12, 4);
        lemma_rebuild_6_3_3_4(word);
    }
}

/// Load a register with an address relative to the program counter.
#[derive(Clone, Copy, Debug, PartialEq, Eq, Structural)]
pub struct Lea(pub u16);

impl Lea {
    /// The layout over the all-zero word.
    pub fn new() -> (out: Self)
        ensures
            out.0 == 0,
    {
        Self(0)
    }

    /// The layout over `bits`.
    pub fn from_bits(bits: u16) -> (out: Self)
        ensures
            out.0 == bits,
    {
        Self(bits)
    }

    /// The instruction word.
    pub fn into_bits(self) -> (bits: u16)
        ensures
            bits == self.0,
    {
        self.0
    }

    /// Bits 0..9: the offset from the program counter, a signed nine-bit number.
    pub fn pc_offset_9(&self) -> (value: usize)
        ensures
            value == spec_field(self.0, 0, 9),
            value <= 0x1ff,
    {
        field(self.0, 0, 9) as usize
    }

    /// Replaces bits 0..9 by `value`, which must fit in nine bits.
    pub fn with_pc_offset_9(self, value: usize) -> (out: Self)
        requires
            value <= 0x1ff,
        ensures
            out.0 == spec_with_field(self.0, 0, 9, value as u16),
            spec_field(out.0, 0, 9) == value,
    {
        Self(with_field(self.0, 0, 9, value as u16))
    }

    /// Bits 9..12: the destination register.
    pub fn dest(&self) -> (value: usize)
        ensures
            value == spec_field(self.0, 9, 3),
            value <= 0x7,
    {
        field(self.0, 9, 3) as usize
    }

    /// Replaces bits 9..12 by `value`, which must fit in three bits.
    pub fn with_dest(self, value: usize) -> (out: Self)
        requires
            value <= 0x7,
        ensures
            out.0 == spec_with_field(self.0, 9, 3, value as u16),
            spec_field(out.0, 9, 3) == value,
    {
        Self(with_field(self.0, 9, 3, value as u16))
    }

    /// Bits 12..16: the opcode.
    pub fn opcode(&self) -> (value: OpCode)
        ensures
            value == OpCode::with_code(spec_field(self.0, 12, 4)),
            value.code() == spec_field(self.0, 12, 4),
    {
        OpCode::from_bits(field(self.0, 12, 4))
    }

    /// Replaces bits 12..16 by the number of `value`.
    pub fn with_opcode(self, value: OpCode) -> (out: Self)
        ensures
            out.0 == spec_with_field(self.0, 12, 4, value.code()),
            spec_field(out.0, 12, 4) == value.code(),
    {
        Self(with_field(self.0, 12, 4, value.into_bits()))
    }

    /// Reading every field of `word` and writing each, as the builders do, into
    /// the all-zero word gives `word` back.
    pub proof fn lemma_round_trip(word: u16)
        ensures
            ({
                let w0 = spec_with_field(0, 0, 9, spec_field(word, 0, 9));
                let w1 = spec_with_field(w0, 9, 3, spec_field(word, 9, 3));
                let w2 = spec_with_field(w1, 12, 4, OpCode::with_code(spec_field(word, 12, 4)).code());
                w2
            }) == word,
    {
        lemma_field_bound(word, 12, 4);
        lemma_rebuild_9_3_4(word);
    }
}

/// Bitwise complement of a register.
#[derive(Clone, Copy, Debug, PartialEq, Eq, Structural)]
pub struct Not(pub u16);

impl Not {
    /// The layout over the all-zero word.
    pub fn new() -> (out: Self)
        ensures
            out.0 == 0,
    {
        Self(0)
    }

    /// The layout over `bits`.
    pub fn from_bits(bits: u16) -> (out: Self)
        ensures
            out.0 == bits,
    {
        Self(bits)
    }

    /// The instruction word.
    pub fn into_bits(self) -> (bits: u16)
        ensures
            bits == self.0,
    {
        self.0
    }

    /// Bits 0..6: unused bits, all set in a well-formed instruction.
    pub fn padding(&self) -> (value: usize)
        ensures
            value == spec_field(self.0, 0, 6),
            value <= 0x3f,
    {
        field(self.0, 0, 6) as usize
    }

    /// Replaces bits 0..6 by `value`, which must fit in six bits.
    pub fn with_padding(self, value: usize) -> (out: Self)
        requires
            value <= 0x3f,
        ensures
            out.0 == spec_with_field(self.0, 0, 6, value as u16),
            spec_field(out.0, 0, 6) == value,
    {
        Self(with_field(self.0, 0, 6, value as u16))
    }

    /// Bits 6..9: the source register.
    pub fn src(&self) -> (value: usize)
        ensures
            value == spec_field(self.0, 6, 3),
            value <= 0x7,
    {
        field(self.0, 6, 3) as usize
    }

    /// Replaces bits 6..9 by `value`, which must fit in three bits.
    pub fn with_src(self, value: usize) -> (out: Self)
        requires
            value <= 0x7,
        ensures
            out.0 == spec_with_field(self.0, 6, 3, value as u16),
            spec_field(out.0, 6, 3) == value,
    {
        Self(with_field(self.0, 6, 3, value as u16))
    }

    /// Bits 9..12: the destination register.
    pub fn dest(&self) -> (value: usize)
        ensures
            value == spec_field(self.0, 9, 3),
            value <= 0x7,
    {
        field(self.0, 9, 3) as usize
    }

    /// Replaces bits 9..12 by `value`, which must fit in three bits.
    pub fn with_dest(self, value: usize) -> (out: Self)
        requires
            value <= 0x7,
        ensures
            out.0 == spec_with_field(self.0, 9, 3, value as u16),
            spec_field(out.0, 9, 3) == value,
    {
        Self(with_field(self.0, 9, 3, value as u16))
    }

    /// Bits 12..16: the opcode.
    pub fn opcode(&self) -> (value: OpCode)
        ensures
            value == OpCode::with_code(spec_field(self.0, 12, 4)),
            value.code() == spec_field(self.0, 12, 4),
    {
        OpCode::from_bits(field(self.0, 12, 4))
    }

    /// Replaces bits 12..16 by the number of `value`.
    pub fn with_opcode(self, value: OpCode) -> (out: Self)
        ensures
            out.0 == spec_with_field(self.0, 12, 4, value.code()),
            spec_field(out.0, 12, 4) == value.code(),
    {
        Self(with_field(self.0, 12, 4, value.into_bits()))
    }

    /// Reading every field of `word` and writing each, as the builders do, into
    /// the all-zero word gives `word` back.
    pub proof fn lemma_round_trip(word: u16)
        ensures
            ({
                let w0 = spec_with_field(0, 0, 6, spec_field(word, 0, 6));
                let w1 = spec_with_field(w0, 6, 3, spec_field(word, 6, 3));
                let w2 = spec_with_field(w1, 9, 3, spec_field(word, 9, 3));
                let w3 = spec_with_field(w2, 12, 4, OpCode::with_code(spec_field(word, 12, 4)).code());
                w3
            }) == word,
    {
        lemma_field_bound(word, 12, 4);
        lemma_rebuild_6_3_3_4(word);
    }
}

/// Ask the host for a service.
#[derive(Clone, Copy, Debug, PartialEq, Eq, Structural)]
pub struct SysCall(pub u16);

impl SysCall {
    /// The layout over the all-zero word.
    pub fn new() -> (out: Self)
        ensures
            out.0 == 0,
    {
        Self(0)
    }

    /// The layout over `bits`.
    pub fn from_bits(bits: u16) -> (out: Self)
        ensures
            out.0 == bits,
    {
        Self(bits)
    }

    /// The instruction word.
    pub fn into_bits(self) -> (bits: u16)
        ensures
            bits == self.0,
    {
        self.0
    }

    /// Bits 0..8: the trap vector.
    pub fn trap_vect_8(&self) -> (value: usize)
        ensures
            value == spec_field(self.0, 0, 8),
            value <= 0xff,
    {
        field(self.0, 0, 8) as usize
    }

    /// Replaces bits 0..8 by `value`, which must fit in eight bits.
    pub fn with_trap_vect_8(self, value: usize) -> (out: Self)
        requires
            value <= 0xff,
        ensures
            out.0 == spec_with_field(self.0, 0, 8, value as u16),
            spec_field(out.0, 0, 8) == value,
    {
        Self(with_field(self.0, 0, 8, value as u16))
    }

    /// Bits 8..12: unused bits.
    pub fn padding(&self) -> (value: usize)
        ensures
            value == spec_field(self.0, 8, 4),
            value <= 0xf,
    {
        field(self.0, 8, 4) as usize
    }

    /// Replaces bits 8..12 by `value`, which must fit in four bits.
    pub fn with_padding(self, value: usize) -> (out: Self)
        requires
            value <= 0xf,
        ensures
            out.0 == spec_with_field(self.0, 8, 4, value as u16),
            spec_field(out.0, 8, 4) == value,
    {
        Self(with_field(self.0, 8, 4, value as u16))
    }

    /// Bits 12..16: the opcode.
    pub fn opcode(&self) -> (value: OpCode)
        ensures
            value == OpCode::with_code(spec_field(self.0, 12, 4)),
            value.code() == spec_field(self.0, 12, 4),
    {
        OpCode::from_bits(field(self.0, 12, 4))
    }

    /// Replaces bits 12..16 by the number of `value`.
    pub fn with_opcode(self, value: OpCode) -> (out: Self)
        ensures
            out.0 == spec_with_field(self.0, 12, 4, value.code()),
            spec_field(out.0, 12, 4) == value.code(),
    {
        Self(with_field(self.0, 12, 4, value.into_bits()))
    }

    /// Reading every field of `word` and writing each, as the builders do, into
    /// the all-zero word gives `word` back.
    pub proof fn lemma_round_trip(word: u16)
        ensures
            ({
                let w0 = spec_with_field(0, 0, 8, spec_field(word, 0, 8));
                let w1 = spec_with_field(w0, 8, 4, spec_field(word, 8, 4));
                let w2 = spec_with_field(w1, 12, 4, OpCode::with_code(spec_field(word, 12, 4)).code());
                w2
            }) == word,
    {
        lemma_field_bound(word, 12, 4);
        lemma_rebuild_8_4_4(word);
    }
}

} // verus!
