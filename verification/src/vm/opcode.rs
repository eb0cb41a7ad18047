//! The opcode table: the sixteen operations that the top four bits of an
//! instruction word select.

use vstd::prelude::*;

verus! {

/// One of the sixteen operations of the instruction set.
#[derive(Clone, Copy, Debug, PartialEq, Eq, Structural)]
pub enum OpCode {
    Branch,
    Add,
    Load,
    Store,
    JumpRegister,
    And,
    LoadRegister,
    StoreRegister,
    Rti,
    Not,
    LoadIndirect,
    StoreIndirect,
    Jump,
    Reserved,
    Lea,
    ExecTrap,
}

impl OpCode {
    /// The four-bit number that selects this operation.
    pub open spec fn code(self) -> u16 {
        match self {
            OpCode::Branch => 0,
            OpCode::Add => 1,
            OpCode::Load => 2,
            OpCode::Store => 3,
            OpCode::JumpRegister => 4,
            OpCode::And => 5,
            OpCode::LoadRegister => 6,
            OpCode::StoreRegister => 7,
            OpCode::Rti => 8,
            OpCode::Not => 9,
            OpCode::LoadIndirect => 10,
            OpCode::StoreIndirect => 11,
            OpCode::Jump => 12,
            OpCode::Reserved => 13,
            OpCode::Lea => 14,
            OpCode::ExecTrap => 15,
        }
    }

    /// The operation that `value` selects; meaningful for `value < 16`.
    pub open spec fn with_code(value: u16) -> OpCode {
        if value == 0 {
            OpCode::Branch
        } else if value == 1 {
            OpCode::Add
        } else if value == 2 {
            OpCode::Load
        } else if value == 3 {
            OpCode::Store
        } else if value == 4 {
            OpCode::JumpRegister
        } else if value == 5 {
            OpCode::And
        } else if value == 6 {
            OpCode::LoadRegister
        } else if value == 7 {
            OpCode::StoreRegister
        } else if value == 8 {
            OpCode::Rti
        } else if value == 9 {
            OpCode::Not
        } else if value == 10 {
            OpCode::LoadIndirect
        } else if value == 11 {
            OpCode::StoreIndirect
        } else if value == 12 {
            OpCode::Jump
        } else if value == 13 {
            OpCode::Reserved
        } else if value == 14 {
            OpCode::Lea
        } else {
            OpCode::ExecTrap
        }
    }

    /// The number of this operation.
    pub fn into_bits(self) -> (bits: u16)
        ensures
            bits == self.code(),
            bits < 16,
    {
        match self {
            OpCode::Branch => 0,
            OpCode::Add => 1,
            OpCode::Load => 2,
            OpCode::Store => 3,
            OpCode::JumpRegister => 4,
            OpCode::And => 5,
            OpCode::LoadRegister => 6,
            OpCode::StoreRegister => 7,
            OpCode::Rti => 8,
            OpCode::Not => 9,
            OpCode::LoadIndirect => 10,
            OpCode::StoreIndirect => 11,
            OpCode::Jump => 12,
            OpCode::Reserved => 13,
            OpCode::Lea => 14,
            OpCode::ExecTrap => 15,
        }
    }

    /// The operation with number `value`, which must be a four-bit number.
    pub fn from_bits(value: u16) -> (op: OpCode)
        requires
            value < 16,
        ensures
            op == OpCode::with_code(value),
            op.code() == value,
    {
        match value {
            0 => OpCode::Branch,
            1 => OpCode::Add,
            2 => OpCode::Load,
            3 => OpCode::Store,
            4 => OpCode::JumpRegister,
            5 => OpCode::And,
            6 => OpCode::LoadRegister,
            7 => OpCode::StoreRegister,
            8 => OpCode::Rti,
            9 => OpCode::Not,
            10 => OpCode::LoadIndirect,
            11 => OpCode::StoreIndirect,
            12 => OpCode::Jump,
            13 => OpCode::Reserved,
            14 => OpCode::Lea,
            _ => OpCode::ExecTrap,
        }
    }

    /// Every operation is the one that its own number selects, and every
    /// four-bit number is the number of the operation it selects.
    pub proof fn lemma_code_round_trip(op: OpCode, value: u16)
        ensures
            op.code() < 16,
            OpCode::with_code(op.code()) == op,
            value < 16 ==> OpCode::with_code(value).code() == value,
    {
    }
}

impl TryFrom<u16> for OpCode {
    type Error = ();

    /// Decodes a number into its operation; fails on a number that does not
    /// fit in four bits.
    fn try_from(value: u16) -> (result: Result<Self, Self::Error>)
        ensures
            value < 16 <==> result is Ok,
            result matches Ok(op) ==> op.code() == value,
    {
        if value < 16 {
            Ok(OpCode::from_bits(value))
        } else {
            Err(())
        }
    }
}

impl vstd::std_specs::convert::TryFromSpecImpl<u16> for OpCode {
    open spec fn obeys_try_from_spec() -> bool {
        true
    }

    open spec fn try_from_spec(value: u16) -> Result<Self, Self::Error> {
        if value < 16 {
            Ok(OpCode::with_code(value))
        } else {
            Err(())
        }
    }
}

} // verus!
