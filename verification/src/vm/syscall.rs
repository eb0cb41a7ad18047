//! The trap table: the host services that a trap instruction can ask for,
//! each with its eight-bit vector.

use vstd::prelude::*;

verus! {

/// A host service.
#[derive(Clone, Copy, Debug, PartialEq, Eq, Structural)]
pub enum SysCall {
    /// Read one character from the keyboard, without echo.
    GetC,
    /// Write one character to the console.
    Out,
    /// Write a string of one character per word.
    PutS,
    /// Prompt for a character, read it and echo it.
    In,
    /// Write a string of two characters per word.
    PutSp,
    /// Stop the machine.
    Halt,
}

impl SysCall {
    /// The trap vector of this service.
    pub open spec fn vector(self) -> usize {
        match self {
            SysCall::GetC => 0x20,
            SysCall::Out => 0x21,
            SysCall::PutS => 0x22,
            SysCall::In => 0x23,
            SysCall::PutSp => 0x24,
            SysCall::Halt => 0x25,
        }
    }

    /// The service with trap vector `value`, if there is one.
    pub open spec fn with_vector(value: usize) -> Option<SysCall> {
        if value == 0x20 {
            Some(SysCall::GetC)
        } else if value == 0x21 {
            Some(SysCall::Out)
        } else if value == 0x22 {
            Some(SysCall::PutS)
        } else if value == 0x23 {
            Some(SysCall::In)
        } else if value == 0x24 {
            Some(SysCall::PutSp)
        } else if value == 0x25 {
            Some(SysCall::Halt)
        } else {
            None
        }
    }

    /// A vector selects a service exactly when it is that service's vector.
    pub proof fn lemma_vector_round_trip(call: SysCall, value: usize)
        ensures
            SysCall::with_vector(call.vector()) == Some(call),
            SysCall::with_vector(value) == Some(call) <==> call.vector() == value,
            SysCall::with_vector(value) is Some <==> 0x20 <= value <= 0x25,
    {
    }
}

impl TryFrom<usize> for SysCall {
    type Error = ();

    /// Decodes a trap vector; fails on a vector that names no service.
    fn try_from(value: usize) -> (result: Result<Self, Self::Error>)
        ensures
            0x20 <= value <= 0x25 <==> result is Ok,
            result matches Ok(call) ==> call.vector() == value,
    {
        match value {
            0x20 => Ok(SysCall::GetC),
            0x21 => Ok(SysCall::Out),
            0x22 => Ok(SysCall::PutS),
            0x23 => Ok(SysCall::In),
            0x24 => Ok(SysCall::PutSp),
            0x25 => Ok(SysCall::Halt),
            _ => Err(()),
        }
    }
}

impl vstd::std_specs::convert::TryFromSpecImpl<usize> for SysCall {
    open spec fn obeys_try_from_spec() -> bool {
        true
    }

    open spec fn try_from_spec(value: usize) -> Result<Self, Self::Error> {
        match SysCall::with_vector(value) {
            Some(call) => Ok(call),
            None => Err(()),
        }
    }
}

} // verus!
