//! A virtual machine for programs of 16-bit words: a flat memory of 32768
//! words, eight registers and a stack, driven by 22 instructions.
//!
//! [`machine::Machine`] is the engine. It is proved to follow, step by step,
//! the mathematical machine of [`state::State`]; what holds of every run of
//! that machine is proved in [`laws`].

pub mod alu;
pub mod disasm;
pub mod fault;
pub mod image;
pub mod laws;
pub mod machine;
pub mod opcode;
pub mod operand;
pub mod stack;
pub mod state;

pub use crate::disasm::dissasemble;
pub use crate::fault::Fault;
pub use crate::machine::{Machine, Report};
pub use crate::opcode::Opcode;
pub use crate::operand::{literal_or_register, register};
pub use crate::stack::Stack;
pub use crate::state::{Outcome, Status, Stop};
