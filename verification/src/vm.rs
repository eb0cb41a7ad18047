//! The simulated machine, leaves first: the bit codec, the opcode and trap
//! tables, the instruction layouts, the meaning of the instructions, the
//! processor that executes them, and the machine with its fetch loop.

pub mod bits;
pub mod cpu;
pub mod instructions;
pub mod machine;
pub mod opcode;
pub mod semantics;
pub mod syscall;
