//! The ways in which the machine can fail.

use vstd::prelude::*;

verus! {

/// An unrecoverable machine error. Every fault ends the run: there is no
/// retry and no recovery.
#[derive(Clone, Copy, Debug, PartialEq, Eq, Structural)]
pub enum Fault {
    /// An operand word of 32776 or more: neither a literal nor a register.
    InvalidOperand,
    /// A literal stands where a register is written to.
    InvalidDestination,
    /// The `pop` instruction found the stack empty.
    StackUnderflow,
    /// An address, or the program counter, lies outside 0..=32767.
    OutOfRangeAddress,
    /// The word at the program counter is none of the 22 opcodes.
    UnknownOpcode,
    /// The `mod` instruction was given a zero divisor.
    DivisionByZero,
}

} // verus!
