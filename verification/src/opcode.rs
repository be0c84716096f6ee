//! The opcode table: the one place that says which word is which
//! instruction, how many operand words follow it, and what it is called.

use vstd::prelude::*;

verus! {

/// The 22 instructions, in the order of their codes 0..=21.
#[derive(Clone, Copy, Debug, PartialEq, Eq, Structural)]
pub enum Opcode {
    /// 0: stop the machine.
    Halt,
    /// 1 a b: set register `a` to the value of `b`.
    Assign,
    /// 2 a: push the value of `a`.
    Push,
    /// 3 a: pop into register `a`.
    Pop,
    /// 4 a b c: set `a` to 1 if `b` equals `c`, else to 0.
    Eq,
    /// 5 a b c: set `a` to 1 if `b` is greater than `c`, else to 0.
    Gt,
    /// 6 a: continue at `a`.
    Jmp,
    /// 7 a b: continue at `b` if `a` is not zero.
    Jt,
    /// 8 a b: continue at `b` if `a` is zero.
    Jf,
    /// 9 a b c: set `a` to the sum of `b` and `c`.
    Add,
    /// 10 a b c: set `a` to the product of `b` and `c`.
    Mult,
    /// 11 a b c: set `a` to the remainder of `b` divided by `c`.
    Mod,
    /// 12 a b c: set `a` to the bitwise and of `b` and `c`.
    And,
    /// 13 a b c: set `a` to the bitwise or of `b` and `c`.
    Or,
    /// 14 a b: set `a` to the 15-bit complement of `b`.
    Not,
    /// 15 a b: set `a` to the memory word at address `b`.
    Rmem,
    /// 16 a b: store the value of `b` at address `a`.
    Wmem,
    /// 17 a: push the address of the next instruction and continue at `a`.
    Call,
    /// 18: pop an address and continue there; stop if the stack is empty.
    Ret,
    /// 19 a: write the character with code `a`.
    Out,
    /// 20 a: read a character into register `a`.
    In,
    /// 21: do nothing.
    Noop,
}

impl Opcode {
    /// The instruction that the word `word` encodes, if any.
    pub open spec fn of(word: u16) -> Option<Opcode> {
        if word == 0 {
            Some(Opcode::Halt)
        } else if word == 1 {
            Some(Opcode::Assign)
        } else if word == 2 {
            Some(Opcode::Push)
        } else if word == 3 {
            Some(Opcode::Pop)
        } else if word == 4 {
            Some(Opcode::Eq)
        } else if word == 5 {
            Some(Opcode::Gt)
        } else if word == 6 {
            Some(Opcode::Jmp)
        } else if word == 7 {
            Some(Opcode::Jt)
        } else if word == 8 {
            Some(Opcode::Jf)
        } else if word == 9 {
            Some(Opcode::Add)
        } else if word == 10 {
            Some(Opcode::Mult)
        } else if word == 11 {
            Some(Opcode::Mod)
        } else if word == 12 {
            Some(Opcode::And)
        } else if word == 13 {
            Some(Opcode::Or)
        } else if word == 14 {
            Some(Opcode::Not)
        } else if word == 15 {
            Some(Opcode::Rmem)
        } else if word == 16 {
            Some(Opcode::Wmem)
        } else if word == 17 {
            Some(Opcode::Call)
        } else if word == 18 {
            Some(Opcode::Ret)
        } else if word == 19 {
            Some(Opcode::Out)
        } else if word == 20 {
            Some(Opcode::In)
        } else if word == 21 {
            Some(Opcode::Noop)
        } else {
            None
        }
    }

    /// The word that encodes this instruction.
    pub open spec fn spec_code(self) -> u16 {
        match self {
            Opcode::Halt => 0,
            Opcode::Assign => 1,
            Opcode::Push => 2,
            Opcode::Pop => 3,
            Opcode::Eq => 4,
            Opcode::Gt => 5,
            Opcode::Jmp => 6,
            Opcode::Jt => 7,
            Opcode::Jf => 8,
            Opcode::Add => 9,
            Opcode::Mult => 10,
            Opcode::Mod => 11,
            Opcode::And => 12,
            Opcode::Or => 13,
            Opcode::Not => 14,
            Opcode::Rmem => 15,
            Opcode::Wmem => 16,
            Opcode::Call => 17,
            Opcode::Ret => 18,
            Opcode::Out => 19,
            Opcode::In => 20,
            Opcode::Noop => 21,
        }
    }

    /// The number of operand words that follow the opcode.
    pub open spec fn arity(self) -> int {
        match self {
            Opcode::Halt | Opcode::Ret | Opcode::Noop => 0,
            Opcode::Push | Opcode::Pop | Opcode::Jmp | Opcode::Call | Opcode::Out | Opcode::In => 1,
            Opcode::Assign
            | Opcode::Jt
            | Opcode::Jf
            | Opcode::Not
            | Opcode::Rmem
            | Opcode::Wmem => 2,
            Opcode::Eq
            | Opcode::Gt
            | Opcode::Add
            | Opcode::Mult
            | Opcode::Mod
            | Opcode::And
            | Opcode::Or => 3,
        }
    }

    /// The name under which the instruction is listed.
    pub open spec fn name(self) -> Seq<char> {
        match self {
            Opcode::Halt => "halt"@,
            Opcode::Assign => "set"@,
            Opcode::Push => "push"@,
            Opcode::Pop => "pop"@,
            Opcode::Eq => "eq"@,
            Opcode::Gt => "gt"@,
            Opcode::Jmp => "jmp"@,
            Opcode::Jt => "jt"@,
            Opcode::Jf => "jf"@,
            Opcode::Add => "add"@,
            Opcode::Mult => "mult"@,
            Opcode::Mod => "mod"@,
            Opcode::And => "and"@,
            Opcode::Or => "or"@,
            Opcode::Not => "not"@,
            Opcode::Rmem => "rmem"@,
            Opcode::Wmem => "wmem"@,
            Opcode::Call => "call"@,
            Opcode::Ret => "ret"@,
            Opcode::Out => "out"@,
            Opcode::In => "in"@,
            Opcode::Noop => "noop"@,
        }
    }

    /// Decodes a word: `Some` for 0..=21, `None` for every other word.
    pub fn from_word(word: u16) -> (op: Option<Opcode>)
        ensures
            op == Opcode::of(word),
            op is Some <==> word <= 21,
            op matches Some(o) ==> o.spec_code() == word,
    {
        match word {
            0 => Some(Opcode::Halt),
            1 => Some(Opcode::Assign),
            2 => Some(Opcode::Push),
            3 => Some(Opcode::Pop),
            4 => Some(Opcode::Eq),
            5 => Some(Opcode::Gt),
            6 => Some(Opcode::Jmp),
            7 => Some(Opcode::Jt),
            8 => Some(Opcode::Jf),
            9 => Some(Opcode::Add),
            10 => Some(Opcode::Mult),
            11 => Some(Opcode::Mod),
            12 => Some(Opcode::And),
            13 => Some(Opcode::Or),
            14 => Some(Opcode::Not),
            15 => Some(Opcode::Rmem),
            16 => Some(Opcode::Wmem),
            17 => Some(Opcode::Call),
            18 => Some(Opcode::Ret),
            19 => Some(Opcode::Out),
            20 => Some(Opcode::In),
            21 => Some(Opcode::Noop),
            _ => None,
        }
    }

    /// The word that encodes this instruction.
    pub fn code(self) -> (word: u16)
        ensures
            word == self.spec_code(),
            word <= 21,
            Opcode::of(word) == Some(self),
    {
        match self {
            Opcode::Halt => 0,
            Opcode::Assign => 1,
            Opcode::Push => 2,
            Opcode::Pop => 3,
            Opcode::Eq => 4,
            Opcode::Gt => 5,
            Opcode::Jmp => 6,
            Opcode::Jt => 7,
            Opcode::Jf => 8,
            Opcode::Add => 9,
            Opcode::Mult => 10,
            Opcode::Mod => 11,
            Opcode::And => 12,
            Opcode::Or => 13,
            Opcode::Not => 14,
            Opcode::Rmem => 15,
            Opcode::Wmem => 16,
            Opcode::Call => 17,
            Opcode::Ret => 18,
            Opcode::Out => 19,
            Opcode::In => 20,
            Opcode::Noop => 21,
        }
    }

    /// The number of operand words that follow the opcode: 0 to 3.
    pub fn operands(self) -> (n: u16)
        ensures
            n == self.arity(),
            n <= 3,
    {
        match self {
            Opcode::Halt | Opcode::Ret | Opcode::Noop => 0,
            Opcode::Push | Opcode::Pop | Opcode::Jmp | Opcode::Call | Opcode::Out | Opcode::In => 1,
            Opcode::Assign
            | Opcode::Jt
            | Opcode::Jf
            | Opcode::Not
            | Opcode::Rmem
            | Opcode::Wmem => 2,
            Opcode::Eq
            | Opcode::Gt
            | Opcode::Add
            | Opcode::Mult
            | Opcode::Mod
            | Opcode::And
            | Opcode::Or => 3,
        }
    }

    /// The name under which the instruction is listed.
    pub fn mnemonic(self) -> (text: &'static str)
        ensures
            text@ == self.name(),
    {
        match self {
            Opcode::Halt => "halt",
            Opcode::Assign => "set",
            Opcode::Push => "push",
            Opcode::Pop => "pop",
            Opcode::Eq => "eq",
            Opcode::Gt => "gt",
            Opcode::Jmp => "jmp",
            Opcode::Jt => "jt",
            Opcode::Jf => "jf",
            Opcode::Add => "add",
            Opcode::Mult => "mult",
            Opcode::Mod => "mod",
            Opcode::And => "and",
            Opcode::Or => "or",
            Opcode::Not => "not",
            Opcode::Rmem => "rmem",
            Opcode::Wmem => "wmem",
            Opcode::Call => "call",
            Opcode::Ret => "ret",
            Opcode::Out => "out",
            Opcode::In => "in",
            Opcode::Noop => "noop",
        }
    }
}

/// Encoding and decoding are inverse to each other: every instruction is
/// decoded from its own code, and a word that decodes is the code of what
/// it decodes to.
pub proof fn lemma_code_round_trip(op: Opcode, word: u16)
    ensures
        Opcode::of(op.spec_code()) == Some(op),
        Opcode::of(word) is Some ==> Opcode::of(word)->Some_0.spec_code() == word,
        Opcode::of(word) is Some <==> word <= 21,
{
}

} // verus!
