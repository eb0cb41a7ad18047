//! A verified simulator of a 16-bit register machine with 65536 words of
//! memory.
//!
//! The library decodes and executes instructions and tells its host what
//! input or output a program asks for; the host performs it. Every function
//! carries a contract over a mathematical model of the machine, and Verus
//! proves each body against its contract.

pub mod vm;
