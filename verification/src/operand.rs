//! Operand decoding.
//!
//! A word used as an operand is a literal when it is below 32768 and names
//! one of the eight registers when it lies in 32768..=32775. Anything above
//! is not an operand at all. Reading and writing go through two separate
//! entry points, so that a literal can never be mistaken for a write target.

use vstd::prelude::*;
use crate::fault::Fault;

verus! {

/// The first word that is no literal: it names register 0.
pub const REGISTER_BASE: u16 = 32768;

/// The number of registers.
pub const REGISTER_COUNT: u16 = 8;

/// Whether `word` is a literal.
pub open spec fn is_literal(word: u16) -> bool {
    word < REGISTER_BASE
}

/// Whether `word` names a register.
pub open spec fn is_register(word: u16) -> bool {
    REGISTER_BASE <= word < REGISTER_BASE + REGISTER_COUNT
}

/// The value that the operand `word` stands for, given the registers.
pub open spec fn resolve(word: u16, registers: Seq<u16>) -> Result<u16, Fault> {
    if is_literal(word) {
        Ok(word)
    } else if is_register(word) {
        Ok(registers[word - REGISTER_BASE])
    } else {
        Err(Fault::InvalidOperand)
    }
}

/// The index of the register that the destination operand `word` names.
pub open spec fn slot(word: u16) -> Result<int, Fault> {
    if is_literal(word) {
        Err(Fault::InvalidDestination)
    } else if is_register(word) {
        Ok(word - REGISTER_BASE)
    } else {
        Err(Fault::InvalidOperand)
    }
}

/// Reads an operand: a literal is its own value, a register address gives
/// the register's current content, and any other word is refused.
pub fn literal_or_register(addr: u16, registers: &[u16; 8]) -> (value: Result<u16, Fault>)
    ensures
        value == resolve(addr, registers@),
        addr <= 32767 ==> value == Ok::<u16, Fault>(addr),
        32768 <= addr <= 32775 ==> value == Ok::<u16, Fault>(registers@[addr - 32768]),
        addr >= 32776 ==> value == Err::<u16, Fault>(Fault::InvalidOperand),
{
    if addr < REGISTER_BASE {
        Ok(addr)
    } else if addr < REGISTER_BASE + REGISTER_COUNT {
        Ok(registers[(addr - REGISTER_BASE) as usize])
    } else {
        Err(Fault::InvalidOperand)
    }
}

/// Gives write access to the register that `addr` names. A literal is no
/// write target, and a word beyond the registers is no operand. What the
/// caller stores through the handle is what the register holds afterwards;
/// the other registers keep their values.
pub fn register(addr: u16, registers: &mut [u16; 8]) -> (handle: Result<&mut u16, Fault>)
    ensures
        match handle {
            Ok(cell) => {
                &&& slot(addr) is Ok
                &&& *cell == old(registers)@[slot(addr)->Ok_0]
                &&& final(registers)@ == old(registers)@.update(slot(addr)->Ok_0, *final(cell))
            },
            Err(fault) => {
                &&& slot(addr) == Err::<int, Fault>(fault)
                &&& final(registers)@ == old(registers)@
            },
        },
        addr <= 32767 ==> handle is Err && handle->Err_0 == Fault::InvalidDestination,
        32768 <= addr <= 32775 ==> handle is Ok,
        addr >= 32776 ==> handle is Err && handle->Err_0 == Fault::InvalidOperand,
{
    if addr < REGISTER_BASE {
        Err(Fault::InvalidDestination)
    } else if addr < REGISTER_BASE + REGISTER_COUNT {
        Ok(&mut registers[(addr - REGISTER_BASE) as usize])
    } else {
        Err(Fault::InvalidOperand)
    }
}

/// A value written through a register's address is what the same address
/// resolves to afterwards, whatever the register held before, and every
/// other operand resolves as it did.
pub proof fn lemma_write_then_resolve(registers: Seq<u16>, addr: u16, value: u16, other: u16)
    requires
        registers.len() == REGISTER_COUNT,
        is_register(addr),
        other != addr,
    ensures
        resolve(addr, registers) == Ok::<u16, Fault>(registers[addr - REGISTER_BASE]),
        resolve(addr, registers.update(slot(addr)->Ok_0, value)) == Ok::<u16, Fault>(value),
        resolve(other, registers.update(slot(addr)->Ok_0, value)) == resolve(other, registers),
{
}

} // verus!
