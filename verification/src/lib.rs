//! A minimal virtual CPU: five byte-wide registers, a 1024-byte memory split
//! into a text and a data segment, a fixed-width instruction encoding and a
//! synchronous fetch-decode-execute step.

pub mod machine;
pub mod memory;
pub mod op;
pub mod reg;
pub mod text;

pub use machine::{Kpu, LoadError, State, StepError};
pub use memory::Memory;
pub use op::{DecodeError, Op};
pub use reg::{Reg, Register, Registers};
