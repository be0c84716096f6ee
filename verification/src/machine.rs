//! The execution engine: memory, registers, stack and program counter in
//! one value, advanced one instruction at a time.
//!
//! The machine does no input or output itself. A step that executes `out`
//! hands the character to the host; a step that finds `in` asks the host
//! for one and leaves the machine where it is until `feed` delivers it.
//! When no character ever comes, the machine simply stays there, running.

use vstd::prelude::*;
use crate::fault::Fault;
use crate::opcode::Opcode;
use crate::operand::{literal_or_register, register};
use crate::stack::Stack;
use crate::state::{Instruction, Outcome, State, Status, Stop, Trace, MEMORY_SIZE};

verus! {

/// A machine: 32768 words of memory, eight registers, a stack, a program
/// counter, and whether it is still running.
pub struct Machine {
    memory: [u16; MEMORY_SIZE],
    registers: [u16; 8],
    stack: Stack,
    pc: u16,
    status: Status,
}

/// What a run did: the characters it wrote, how many characters of the
/// input it read, and why it ended.
pub struct Report {
    pub output: Vec<u8>,
    pub consumed: usize,
    pub stop: Stop,
}

impl Report {
    /// Whether this report tells of the run `trace`.
    pub open spec fn tells(self, trace: Trace) -> bool {
        &&& self.output@ == trace.output
        &&& self.consumed == trace.consumed
        &&& self.stop == trace.stop
    }
}

impl View for Machine {
    type V = State;

    closed spec fn view(&self) -> State {
        State {
            memory: self.memory@,
            registers: self.registers@,
            stack: self.stack@,
            pc: self.pc as int,
            status: self.status,
        }
    }
}

impl Machine {
    /// A machine loaded with the program `image`, ready to run at address
    /// 0. Memory above the image is zero. An image of more than 32768 words
    /// does not fit and gives `None`.
    pub fn new(image: &[u16]) -> (machine: Option<Machine>)
        ensures
            image@.len() <= MEMORY_SIZE ==> machine is Some && machine->Some_0@ == State::boot(
                image@,
            ),
            image@.len() > MEMORY_SIZE ==> machine is None,
            machine matches Some(m) ==> m@.wf(),
    {
        if image.len() > MEMORY_SIZE {
            return None;
        }
        let mut memory = [0u16;MEMORY_SIZE];
        let mut i: usize = 0;
        while i < image.len()
            invariant
                i <= image@.len() <= MEMORY_SIZE,
                forall|k: int| 0 <= k < i ==> memory@[k] == image@[k],
                forall|k: int| i <= k < MEMORY_SIZE ==> memory@[k] == 0,
            decreases image@.len() - i,
        {
            memory[i] = image[i];
            i += 1;
        }
        let machine = Machine {
            memory,
            registers: [0u16;8],
            stack: Stack::new(),
            pc: 0,
            status: Status::Running,
        };
        assert(machine@.memory =~= State::boot(image@).memory);
        assert(machine@.registers =~= State::boot(image@).registers);
        Some(machine)
    }

    /// The state of an executable machine is always well-formed.
    pub proof fn lemma_view_is_wf(&self)
        ensures
            self@.wf(),
    {
    }

    /// The address of the next instruction. After a fault it is the address
    /// at which the fault happened.
    pub fn pc(&self) -> (pc: u16)
        ensures
            pc == self@.pc,
    {
        self.pc
    }

    /// Whether the machine is running, halted or faulted.
    pub fn status(&self) -> (status: Status)
        ensures
            status == self@.status,
    {
        self.status
    }

    /// The content of the eight registers.
    pub fn registers(&self) -> (registers: [u16; 8])
        ensures
            registers@ == self@.registers,
    {
        self.registers
    }

    /// The stack.
    pub fn stack(&self) -> (stack: &Stack)
        ensures
            stack@ == self@.stack,
    {
        &self.stack
    }

    /// The memory word at `address`, or `None` beyond the end of memory.
    pub fn word(&self, address: u16) -> (word: Option<u16>)
        ensures
            word == (if address < MEMORY_SIZE {
                Some(self@.memory[address as int])
            } else {
                None
            }),
    {
        if (address as usize) < MEMORY_SIZE {
            Some(self.memory[address as usize])
        } else {
            None
        }
    }

    /// Reads the instruction at the program counter.
    fn fetch(&self) -> (ins: Result<Instruction, Fault>)
        ensures
            ins == self@.fetch(),
    {
        let pc = self.pc as usize;
        if pc >= MEMORY_SIZE {
            return Err(Fault::OutOfRangeAddress);
        }
        let op = match Opcode::from_word(self.memory[pc]) {
            Some(op) => op,
            None => { return Err(Fault::UnknownOpcode); },
        };
        let n = op.operands() as usize;
        if pc + n >= MEMORY_SIZE {
            return Err(Fault::OutOfRangeAddress);
        }
        let a = if n >= 1 {
            self.memory[pc + 1]
        } else {
            0
        };
        let b = if n >= 2 {
            self.memory[pc + 2]
        } else {
            0
        };
        let c = if n >= 3 {
            self.memory[pc + 3]
        } else {
            0
        };
        Ok(Instruction { op, a, b, c })
    }

    /// The value of an operand.
    fn value(&self, operand: u16) -> (value: Result<u16, Fault>)
        ensures
            value == self@.value(operand),
    {
        literal_or_register(operand, &self.registers)
    }

    /// Stores `value` in the register that `dst` names and moves on by
    /// `width` words.
    fn assign(&mut self, dst: u16, value: u16, width: u16) -> (done: Result<Outcome, Fault>)
        requires
            old(self)@.pc + width <= u16::MAX,
        ensures
            agrees(done, final(self)@, old(self)@, old(self)@.assign(dst, value, width as int)),
    {
        let cell = register(dst, &mut self.registers)?;
        *cell = value;
        self.pc = self.pc + width;
        Ok(Outcome::Continue)
    }

    /// Stops the machine normally.
    fn halt(&mut self) -> (done: Result<Outcome, Fault>)
        ensures
            agrees(done, final(self)@, old(self)@, old(self)@.halt()),
    {
        self.status = Status::Halted;
        Ok(Outcome::Halted)
    }

    /// Moves the program counter on by `width` words.
    fn advance(&mut self, width: u16) -> (done: Result<Outcome, Fault>)
        requires
            old(self)@.pc + width <= u16::MAX,
        ensures
            agrees(done, final(self)@, old(self)@, old(self)@.advance(width as int)),
    {
        self.pc = self.pc + width;
        Ok(Outcome::Continue)
    }

    /// Continues at `target`.
    fn jump(&mut self, target: u16) -> (done: Result<Outcome, Fault>)
        ensures
            agrees(done, final(self)@, old(self)@, old(self)@.jump(target)),
    {
        self.pc = target;
        Ok(Outcome::Continue)
    }

    /// Executes `ins`, which was fetched at the program counter.
    fn execute(&mut self, ins: Instruction) -> (done: Result<Outcome, Fault>)
        requires
            old(self)@.fetch() == Ok::<Instruction, Fault>(ins),
        ensures
            agrees(done, final(self)@, old(self)@, old(self)@.execute(ins)),
    {
        let Instruction { op, a, b, c } = ins;
        match op {
            Opcode::Halt => self.halt(),
            Opcode::Assign => {
                let x = self.value(b)?;
                self.assign(a, x, 3)
            },
            Opcode::Push => {
                let x = self.value(a)?;
                self.stack.push(x);
                self.advance(2)
            },
            Opcode::Pop => {
                let x = match self.stack.peek() {
                    Some(x) => x,
                    None => { return Err(Fault::StackUnderflow); },
                };
                let cell = register(a, &mut self.registers)?;
                *cell = x;
                let _ = self.stack.pop();
                self.advance(2)
            },
            Opcode::Eq => {
                let x = self.value(b)?;
                let y = self.value(c)?;
                self.assign(a, if x == y { 1 } else { 0 }, 4)
            },
            Opcode::Gt => {
                let x = self.value(b)?;
                let y = self.value(c)?;
                self.assign(a, if x > y { 1 } else { 0 }, 4)
            },
            Opcode::Jmp => {
                let target = self.value(a)?;
                self.jump(target)
            },
            Opcode::Jt => {
                let x = self.value(a)?;
                let target = self.value(b)?;
                if x != 0 {
                    self.jump(target)
                } else {
                    self.advance(3)
                }
            },
            Opcode::Jf => {
                let x = self.value(a)?;
                let target = self.value(b)?;
                if x == 0 {
                    self.jump(target)
                } else {
                    self.advance(3)
                }
            },
            Opcode::Add => {
                let x = self.value(b)?;
                let y = self.value(c)?;
                self.assign(a, crate::alu::add(x, y), 4)
            },
            Opcode::Mult => {
                let x = self.value(b)?;
                let y = self.value(c)?;
                self.assign(a, crate::alu::mult(x, y), 4)
            },
            Opcode::Mod => {
                let x = self.value(b)?;
                let y = self.value(c)?;
                let r = crate::alu::modulo(x, y)?;
                self.assign(a, r, 4)
            },
            Opcode::And => {
                let x = self.value(b)?;
                let y = self.value(c)?;
                self.assign(a, crate::alu::and(x, y), 4)
            },
            Opcode::Or => {
                let x = self.value(b)?;
                let y = self.value(c)?;
                self.assign(a, crate::alu::or(x, y), 4)
            },
            Opcode::Not => {
                let x = self.value(b)?;
                self.assign(a, crate::alu::not(x), 3)
            },
            Opcode::Rmem => {
                let address = self.value(b)? as usize;
                if address >= MEMORY_SIZE {
                    return Err(Fault::OutOfRangeAddress);
                }
                let x = self.memory[address];
                self.assign(a, x, 3)
            },
            Opcode::Wmem => {
                let address = self.value(a)? as usize;
                let x = self.value(b)?;
                if address >= MEMORY_SIZE {
                    return Err(Fault::OutOfRangeAddress);
                }
                self.memory[address] = x;
                self.advance(3)
            },
            Opcode::Call => {
                let target = self.value(a)?;
                self.stack.push(self.pc + 2);
                self.jump(target)
            },
            Opcode::Ret => {
                match self.stack.pop() {
                    Ok(target) => self.jump(target),
                    Err(_) => self.halt(),
                }
            },
            Opcode::Out => {
                let x = self.value(a)?;
                self.pc = self.pc + 2;
                Ok(Outcome::Output((x % 256) as u8))
            },
            Opcode::In => {
                let _ = register(a, &mut self.registers)?;
                Ok(Outcome::Input)
            },
            Opcode::Noop => self.advance(1),
        }
    }

    /// Stops the machine with `fault`.
    fn fail(&mut self, fault: Fault) -> (outcome: Outcome)
        ensures
            (final(self)@, outcome) == old(self)@.fail(fault),
    {
        self.status = Status::Faulted(fault);
        Outcome::Faulted(fault)
    }

    /// Executes one instruction and says what the host has to do. A halted
    /// or faulted machine does nothing and reports its status again. At an
    /// `in` instruction the machine does not move: it returns
    /// `Outcome::Input` until `feed` has delivered a character.
    pub fn step(&mut self) -> (outcome: Outcome)
        ensures
            (final(self)@, outcome) == old(self)@.step(),
    {
        match self.status {
            Status::Halted => Outcome::Halted,
            Status::Faulted(fault) => Outcome::Faulted(fault),
            Status::Running => {
                let ins = match self.fetch() {
                    Ok(ins) => ins,
                    Err(fault) => { return self.fail(fault); },
                };
                match self.execute(ins) {
                    Ok(outcome) => outcome,
                    Err(fault) => self.fail(fault),
                }
            },
        }
    }

    /// Delivers the character with code `byte` to a machine that waits at
    /// an `in` instruction: the register named there receives the code and
    /// the machine moves on. Returns whether the character was taken; a
    /// machine that does not wait for one is left as it is.
    pub fn feed(&mut self, byte: u8) -> (taken: bool)
        ensures
            taken == old(self)@.awaits_input(),
            final(self)@ == old(self)@.deliver(byte),
    {
        match self.status {
            Status::Running => {},
            _ => { return false; },
        }
        match self.fetch() {
            Ok(Instruction { op: Opcode::In, a, b: _, c: _ }) => {
                match register(a, &mut self.registers) {
                    Ok(cell) => {
                        *cell = byte as u16;
                        self.pc = self.pc + 2;
                        true
                    },
                    Err(_) => false,
                }
            },
            _ => false,
        }
    }

    /// Runs the program for at most `limit` steps, reading its characters
    /// from `input` and collecting what it writes. The run ends when the
    /// machine halts or faults, when an `in` instruction finds the input
    /// used up, or when the steps are spent; the machine can be run again
    /// from where it stopped.
    pub fn run(&mut self, input: &[u8], limit: u64) -> (report: Report)
        ensures
            final(self)@ == old(self)@.run(input@, limit as nat).state,
            report.tells(old(self)@.run(input@, limit as nat)),
    {
        let ghost whole = self@.run(input@, limit as nat);
        let mut output: Vec<u8> = Vec::new();
        let mut consumed: usize = 0;
        let mut left: u64 = limit;
        assert(input@.skip(0) =~= input@);
        assert(whole =~= whole.after(Seq::empty(), 0));
        while left > 0
            invariant
                consumed <= input@.len(),
                whole == old(self)@.run(input@, limit as nat),
                whole == self@.run(input@.skip(consumed as int), left as nat).after(
                    output@,
                    consumed as nat,
                ),
            decreases left,
        {
            let ghost here = self@;
            let ghost unread = input@.skip(consumed as int);
            let ghost ahead = here.run(unread, left as nat);
            let outcome = self.step();
            match outcome {
                Outcome::Continue => {},
                Outcome::Output(byte) => {
                    let ghost written = output@;
                    output.push(byte);
                    let ghost later = self@.run(unread, (left - 1) as nat);
                    assert(ahead.after(written, consumed as nat) =~= later.after(
                        output@,
                        consumed as nat,
                    )) by {
                        assert(written + (seq![byte] + later.output) =~= output@
                            + later.output);
                    }
                },
                Outcome::Input => {
                    if consumed >= input.len() {
                        assert(unread.len() == 0);
                        assert(ahead.after(output@, consumed as nat) =~= Trace {
                            state: here,
                            output: output@,
                            consumed: consumed as nat,
                            stop: Stop::InputExhausted,
                        });
                        return Report { output, consumed, stop: Stop::InputExhausted };
                    }
                    let byte = input[consumed];
                    self.feed(byte);
                    consumed += 1;
                    let ghost later = self@.run(input@.skip(consumed as int), (left - 1) as nat);
                    assert(unread.first() == byte);
                    assert(unread.drop_first() =~= input@.skip(consumed as int));
                    assert(ahead.after(output@, (consumed - 1) as nat) =~= later.after(
                        output@,
                        consumed as nat,
                    ));
                },
                Outcome::Halted => {
                    assert(ahead.after(output@, consumed as nat) =~= Trace {
                        state: self@,
                        output: output@,
                        consumed: consumed as nat,
                        stop: Stop::Halted,
                    });
                    return Report { output, consumed, stop: Stop::Halted };
                },
                Outcome::Faulted(fault) => {
                    assert(ahead.after(output@, consumed as nat) =~= Trace {
                        state: self@,
                        output: output@,
                        consumed: consumed as nat,
                        stop: Stop::Faulted(fault),
                    });
                    return Report { output, consumed, stop: Stop::Faulted(fault) };
                },
            }
            left -= 1;
        }
        assert(whole =~= Trace {
            state: self@,
            output: output@,
            consumed: consumed as nat,
            stop: Stop::LimitReached,
        });
        Report { output, consumed, stop: Stop::LimitReached }
    }
}

/// Whether an executable step with result `done` that took the machine from
/// `before` to `after` did what `effect` says: on success the new state and
/// the outcome are those of `effect`, and on a fault nothing has changed.
spec fn agrees(
    done: Result<Outcome, Fault>,
    after: State,
    before: State,
    effect: Result<(State, Outcome), Fault>,
) -> bool {
    match effect {
        Ok((state, outcome)) => done == Ok::<Outcome, Fault>(outcome) && after =~= state,
        Err(fault) => done == Err::<Outcome, Fault>(fault) && after =~= before,
    }
}

} // verus!
