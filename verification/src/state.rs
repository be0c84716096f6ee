//! The machine as a mathematical value, and what one instruction does to it.
//!
//! Everything the engine does is stated here first, on sequences and
//! integers; the executable machine is proved to follow it step by step.

use vstd::prelude::*;
use crate::alu::{spec_add, spec_and, spec_modulo, spec_mult, spec_not, spec_or};
use crate::fault::Fault;
use crate::opcode::Opcode;
use crate::operand::{resolve, slot};
use crate::stack::{pop_rest, pop_value};

verus! {

/// The number of words of memory: addresses run from 0 to 32767.
pub const MEMORY_SIZE: usize = 32768;

/// Where the machine stands. `Halted` and `Faulted` are final: a machine
/// that has reached one of them never leaves it.
#[derive(Clone, Copy, Debug, PartialEq, Eq, Structural)]
pub enum Status {
    /// The next instruction can be executed.
    Running,
    /// The program ended by `halt`, or by `ret` on an empty stack.
    Halted,
    /// The program was stopped by a fault.
    Faulted(Fault),
}

/// What one step asks of the host.
#[derive(Clone, Copy, Debug, PartialEq, Eq, Structural)]
pub enum Outcome {
    /// An instruction was executed; there is nothing for the host to do.
    Continue,
    /// `out` was executed: the host writes the character with this code.
    Output(u8),
    /// `in` is the next instruction and waits for a character. The machine
    /// has not moved; it goes on when the host delivers one.
    Input,
    /// The machine is halted.
    Halted,
    /// The machine is stopped by this fault; the program counter is where
    /// it happened.
    Faulted(Fault),
}

/// An opcode together with the operand words that follow it in memory.
/// Operands that the opcode does not have are zero.
#[derive(Clone, Copy, Debug, PartialEq, Eq, Structural)]
pub struct Instruction {
    pub op: Opcode,
    pub a: u16,
    pub b: u16,
    pub c: u16,
}

/// The whole state of a machine.
#[verifier::ext_equal]
pub ghost struct State {
    /// The words of memory, program and data alike.
    pub memory: Seq<u16>,
    /// The eight registers.
    pub registers: Seq<u16>,
    /// The stack; its top is the last element.
    pub stack: Seq<u16>,
    /// The address of the next instruction.
    pub pc: int,
    pub status: Status,
}

/// Why a run came to an end.
#[derive(Clone, Copy, Debug, PartialEq, Eq, Structural)]
pub enum Stop {
    /// The program halted.
    Halted,
    /// The program was stopped by a fault.
    Faulted(Fault),
    /// The program waits at an `in` instruction and the input is used up.
    InputExhausted,
    /// The allowed number of steps was taken and the program still runs.
    LimitReached,
}

/// A run as a whole: where it left the machine, what it wrote, how many
/// characters of input it read, and why it ended.
#[verifier::ext_equal]
pub ghost struct Trace {
    pub state: State,
    pub output: Seq<u8>,
    pub consumed: nat,
    pub stop: Stop,
}

impl Trace {
    /// A run that ends at once in `state`.
    pub open spec fn end(state: State, stop: Stop) -> Trace {
        Trace { state, output: Seq::empty(), consumed: 0, stop }
    }

    /// This run, after a stretch that wrote `output` and read `consumed`
    /// characters.
    pub open spec fn after(self, output: Seq<u8>, consumed: nat) -> Trace {
        Trace { output: output + self.output, consumed: consumed + self.consumed, ..self }
    }
}

/// The result of executing an instruction: the new state and what the host
/// is asked to do, or the fault that stopped it.
pub type Effect = Result<(State, Outcome), Fault>;

impl State {
    /// Memory has its full size, there are eight registers, and the program
    /// counter fits in a word.
    pub open spec fn wf(self) -> bool {
        &&& self.memory.len() == MEMORY_SIZE
        &&& self.registers.len() == 8
        &&& 0 <= self.pc <= u16::MAX
    }

    /// The state in which a machine starts on the program `image`: the image
    /// at the bottom of memory and zeros above it, all registers zero, the
    /// stack empty, the program counter at 0.
    pub open spec fn boot(image: Seq<u16>) -> State
        recommends
            image.len() <= MEMORY_SIZE,
    {
        State {
            memory: Seq::new(
                MEMORY_SIZE as nat,
                |i: int|
                    if i < image.len() {
                        image[i]
                    } else {
                        0u16
                    },
            ),
            registers: Seq::new(8, |i: int| 0u16),
            stack: Seq::empty(),
            pc: 0,
            status: Status::Running,
        }
    }

    /// The instruction at the program counter. The opcode and all its
    /// operand words must lie within memory.
    pub open spec fn fetch(self) -> Result<Instruction, Fault> {
        if !(0 <= self.pc < MEMORY_SIZE) {
            Err(Fault::OutOfRangeAddress)
        } else {
            match Opcode::of(self.memory[self.pc]) {
                None => Err(Fault::UnknownOpcode),
                Some(op) => if self.pc + op.arity() >= MEMORY_SIZE {
                    Err(Fault::OutOfRangeAddress)
                } else {
                    Ok(
                        Instruction {
                            op,
                            a: if op.arity() >= 1 {
                                self.memory[self.pc + 1]
                            } else {
                                0
                            },
                            b: if op.arity() >= 2 {
                                self.memory[self.pc + 2]
                            } else {
                                0
                            },
                            c: if op.arity() >= 3 {
                                self.memory[self.pc + 3]
                            } else {
                                0
                            },
                        },
                    )
                },
            }
        }
    }

    /// The value of an operand in this state.
    pub open spec fn value(self, operand: u16) -> Result<u16, Fault> {
        resolve(operand, self.registers)
    }

    /// The values of two operands, the first fault winning.
    pub open spec fn values(self, first: u16, second: u16) -> Result<(u16, u16), Fault> {
        match (self.value(first), self.value(second)) {
            (Ok(x), Ok(y)) => Ok((x, y)),
            (Err(fault), _) => Err(fault),
            (_, Err(fault)) => Err(fault),
        }
    }

    /// Moves the program counter on by `width` words.
    pub open spec fn advance(self, width: int) -> Effect {
        Ok((State { pc: self.pc + width, ..self }, Outcome::Continue))
    }

    /// Continues at `target`.
    pub open spec fn jump(self, target: u16) -> Effect {
        Ok((State { pc: target as int, ..self }, Outcome::Continue))
    }

    /// Stores `value` in the register that `dst` names and moves on by
    /// `width` words.
    pub open spec fn assign(self, dst: u16, value: u16, width: int) -> Effect {
        match slot(dst) {
            Ok(i) => State { registers: self.registers.update(i, value), ..self }.advance(width),
            Err(fault) => Err(fault),
        }
    }

    /// Stops the machine normally.
    pub open spec fn halt(self) -> Effect {
        Ok((State { status: Status::Halted, ..self }, Outcome::Halted))
    }

    /// What executing `ins` does. The operands that are read are decoded
    /// first, in their order; then the operation itself may fail; the
    /// destination is decoded last, when the result is stored. A fault
    /// leaves everything as it was.
    pub open spec fn execute(self, ins: Instruction) -> Effect {
        let Instruction { op, a, b, c } = ins;
        match op {
            Opcode::Halt => self.halt(),
            Opcode::Assign => match self.value(b) {
                Ok(x) => self.assign(a, x, 3),
                Err(fault) => Err(fault),
            },
            Opcode::Push => match self.value(a) {
                Ok(x) => State { stack: self.stack.push(x), ..self }.advance(2),
                Err(fault) => Err(fault),
            },
            Opcode::Pop => match pop_value(self.stack) {
                Ok(x) => State { stack: pop_rest(self.stack), ..self }.assign(a, x, 2),
                Err(fault) => Err(fault),
            },
            Opcode::Eq => match self.values(b, c) {
                Ok((x, y)) => self.assign(a, if x == y { 1 } else { 0 }, 4),
                Err(fault) => Err(fault),
            },
            Opcode::Gt => match self.values(b, c) {
                Ok((x, y)) => self.assign(a, if x > y { 1 } else { 0 }, 4),
                Err(fault) => Err(fault),
            },
            Opcode::Jmp => match self.value(a) {
                Ok(target) => self.jump(target),
                Err(fault) => Err(fault),
            },
            Opcode::Jt => match self.values(a, b) {
                Ok((x, target)) => if x != 0 {
                    self.jump(target)
                } else {
                    self.advance(3)
                },
                Err(fault) => Err(fault),
            },
            Opcode::Jf => match self.values(a, b) {
                Ok((x, target)) => if x == 0 {
                    self.jump(target)
                } else {
                    self.advance(3)
                },
                Err(fault) => Err(fault),
            },
            Opcode::Add => match self.values(b, c) {
                Ok((x, y)) => self.assign(a, spec_add(x, y), 4),
                Err(fault) => Err(fault),
            },
            Opcode::Mult => match self.values(b, c) {
                Ok((x, y)) => self.assign(a, spec_mult(x, y), 4),
                Err(fault) => Err(fault),
            },
            Opcode::Mod => match self.values(b, c) {
                Ok((x, y)) => match spec_modulo(x, y) {
                    Ok(r) => self.assign(a, r, 4),
                    Err(fault) => Err(fault),
                },
                Err(fault) => Err(fault),
            },
            Opcode::And => match self.values(b, c) {
                Ok((x, y)) => self.assign(a, spec_and(x, y), 4),
                Err(fault) => Err(fault),
            },
            Opcode::Or => match self.values(b, c) {
                Ok((x, y)) => self.assign(a, spec_or(x, y), 4),
                Err(fault) => Err(fault),
            },
            Opcode::Not => match self.value(b) {
                Ok(x) => self.assign(a, spec_not(x), 3),
                Err(fault) => Err(fault),
            },
            Opcode::Rmem => match self.value(b) {
                Ok(address) => if address >= MEMORY_SIZE {
                    Err(Fault::OutOfRangeAddress)
                } else {
                    self.assign(a, self.memory[address as int], 3)
                },
                Err(fault) => Err(fault),
            },
            Opcode::Wmem => match self.values(a, b) {
                Ok((address, x)) => if address >= MEMORY_SIZE {
                    Err(Fault::OutOfRangeAddress)
                } else {
                    State { memory: self.memory.update(address as int, x), ..self }.advance(3)
                },
                Err(fault) => Err(fault),
            },
            Opcode::Call => match self.value(a) {
                Ok(target) => State {
                    stack: self.stack.push((self.pc + 2) as u16),
                    ..self
                }.jump(target),
                Err(fault) => Err(fault),
            },
            Opcode::Ret => match pop_value(self.stack) {
                Ok(target) => State { stack: pop_rest(self.stack), ..self }.jump(target),
                Err(_) => self.halt(),
            },
            Opcode::Out => match self.value(a) {
                Ok(x) => Ok((State { pc: self.pc + 2, ..self }, Outcome::Output((x % 256) as u8))),
                Err(fault) => Err(fault),
            },
            Opcode::In => match slot(a) {
                Ok(_) => Ok((self, Outcome::Input)),
                Err(fault) => Err(fault),
            },
            Opcode::Noop => self.advance(1),
        }
    }

    /// The machine stopped by `fault`, with everything else as it is.
    pub open spec fn fail(self, fault: Fault) -> (State, Outcome) {
        (State { status: Status::Faulted(fault), ..self }, Outcome::Faulted(fault))
    }

    /// One step: a machine that is not running stays as it is and says so;
    /// a running machine fetches the instruction at the program counter and
    /// executes it, and any fault on the way stops it where it stands.
    pub open spec fn step(self) -> (State, Outcome) {
        match self.status {
            Status::Halted => (self, Outcome::Halted),
            Status::Faulted(fault) => (self, Outcome::Faulted(fault)),
            Status::Running => match self.fetch() {
                Err(fault) => self.fail(fault),
                Ok(ins) => match self.execute(ins) {
                    Err(fault) => self.fail(fault),
                    Ok(effect) => effect,
                },
            },
        }
    }

    /// The state after one step.
    pub open spec fn next(self) -> State {
        self.step().0
    }

    /// Whether the machine waits for a character: it is running and its
    /// next instruction is an `in` with a register to read into.
    pub open spec fn awaits_input(self) -> bool {
        self.step().1 == Outcome::Input
    }

    /// The state after the character with code `byte` was delivered. A
    /// machine that waits for one stores it in the register that its `in`
    /// names and moves on; any other machine ignores it.
    pub open spec fn deliver(self, byte: u8) -> State {
        if self.awaits_input() {
            State {
                registers: self.registers.update(slot(self.memory[self.pc + 1])->Ok_0, byte as u16),
                pc: self.pc + 2,
                ..self
            }
        } else {
            self
        }
    }

    /// A run of at most `limit` steps on the characters of `input`. Each
    /// `out` adds its character to the output; each `in` takes the next
    /// character of the input, and counts as one step together with its
    /// delivery. The run ends when the machine halts or faults, when an
    /// `in` finds the input used up, or when the steps are spent.
    pub open spec fn run(self, input: Seq<u8>, limit: nat) -> Trace
        decreases limit,
    {
        if limit == 0 {
            Trace::end(self, Stop::LimitReached)
        } else {
            let rest = (limit - 1) as nat;
            match self.step() {
                (state, Outcome::Continue) => state.run(input, rest),
                (state, Outcome::Output(byte)) => state.run(input, rest).after(seq![byte], 0),
                (_, Outcome::Input) => if input.len() == 0 {
                    Trace::end(self, Stop::InputExhausted)
                } else {
                    self.deliver(input.first()).run(input.drop_first(), rest).after(
                        Seq::empty(),
                        1,
                    )
                },
                (state, Outcome::Halted) => Trace::end(state, Stop::Halted),
                (state, Outcome::Faulted(fault)) => Trace::end(state, Stop::Faulted(fault)),
            }
        }
    }
}

} // verus!
