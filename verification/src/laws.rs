//! What holds of every machine, whatever its program.

use vstd::prelude::*;
use crate::fault::Fault;
use crate::opcode::Opcode;
use crate::operand::slot;
use crate::state::{Outcome, State, Status, Stop, Trace, MEMORY_SIZE};

verus! {

/// Whether the machine in state `from` can be in state `to` a moment
/// later: by one step, or by the delivery of a character.
pub open spec fn follows(from: State, to: State) -> bool {
    to == from.next() || exists|byte: u8| to == from.deliver(byte)
}

/// Whether `path` is a stretch of one machine's history: each state
/// follows the one before it.
pub open spec fn is_path(path: Seq<State>) -> bool {
    forall|i: int| 0 <= i < path.len() - 1 ==> #[trigger] follows(path[i], path[i + 1])
}

/// Whether the running machine `s` has the instruction `op` before it.
pub open spec fn at(s: State, op: Opcode) -> bool {
    &&& s.status == Status::Running
    &&& s.fetch() matches Ok(ins)
    &&& ins.op == op
}

/// Whether `op` computes a value from its operands and stores it.
pub open spec fn computes(op: Opcode) -> bool {
    op == Opcode::Eq || op == Opcode::Gt || op == Opcode::Add || op == Opcode::Mult || op
        == Opcode::Mod || op == Opcode::And || op == Opcode::Or || op == Opcode::Not
}

/// Whether `op` sets the program counter itself, or leaves it where it is.
pub open spec fn redirects(op: Opcode) -> bool {
    op == Opcode::Halt || op == Opcode::Jmp || op == Opcode::Jt || op == Opcode::Jf || op
        == Opcode::Call || op == Opcode::Ret || op == Opcode::In
}

/// Whether `op` stores a value in the register that its first operand
/// names.
pub open spec fn stores(op: Opcode) -> bool {
    computes(op) || op == Opcode::Assign || op == Opcode::Pop || op == Opcode::Rmem
}

/// A well-formed machine stays well-formed, whether it steps or is given
/// a character.
pub proof fn lemma_wf_is_kept(s: State, byte: u8)
    requires
        s.wf(),
    ensures
        s.next().wf(),
        s.deliver(byte).wf(),
{
}

/// Halted and faulted machines are final: a step changes nothing and
/// reports the same status again, and a character is ignored.
pub proof fn lemma_stopped_is_final(s: State, byte: u8)
    requires
        s.status != Status::Running,
    ensures
        s.next() == s,
        s.deliver(byte) == s,
        s.status == Status::Halted ==> s.step().1 == Outcome::Halted,
        s.status matches Status::Faulted(fault) ==> s.step().1 == Outcome::Faulted(fault),
{
}

/// The outcome of a step and the status after it go together: the step
/// reports a halt exactly when it leaves the machine halted, and a fault
/// exactly when it leaves the machine stopped by that fault.
pub proof fn lemma_outcome_matches_status(s: State)
    ensures
        s.step().1 == Outcome::Halted <==> s.next().status == Status::Halted,
        forall|fault: Fault|
            s.step().1 == Outcome::Faulted(fault) <==> s.next().status == Status::Faulted(fault),
{
}

/// A running machine keeps running until a step reports a halt or a
/// fault: there is no other way to stop.
pub proof fn lemma_running_until_stopped(s: State, byte: u8)
    requires
        s.status == Status::Running,
    ensures
        s.step().1 == Outcome::Continue || s.step().1 is Output || s.step().1 == Outcome::Input
            <==> s.next().status == Status::Running,
        s.deliver(byte).status == Status::Running,
{
}

/// A fault stops the machine where it stands: memory, registers, stack and
/// program counter are those of the moment before, so the program counter
/// is the address at which the fault happened.
pub proof fn lemma_fault_keeps_state(s: State)
    ensures
        s.step().1 matches Outcome::Faulted(fault) ==> s.next() == (State {
            status: Status::Faulted(fault),
            ..s
        }),
{
}

/// A machine that waits for a character does not move by stepping.
pub proof fn lemma_waiting_is_still(s: State)
    requires
        s.awaits_input(),
    ensures
        s.next() == s,
        at(s, Opcode::In),
{
}

/// `ret` on an empty stack halts the machine; it is no underflow.
pub proof fn lemma_ret_on_empty_stack_halts(s: State)
    requires
        at(s, Opcode::Ret),
        s.stack.len() == 0,
    ensures
        s.step() == (State { status: Status::Halted, ..s }, Outcome::Halted),
{
}

/// `pop` on an empty stack is an underflow, wherever it is meant to store
/// the value.
pub proof fn lemma_pop_on_empty_stack_faults(s: State)
    requires
        at(s, Opcode::Pop),
        s.stack.len() == 0,
    ensures
        s.step() == s.fail(Fault::StackUnderflow),
        s.next().status == Status::Faulted(Fault::StackUnderflow),
{
}

/// A word that is no opcode stops the machine with `UnknownOpcode`, at the
/// address of that word.
pub proof fn lemma_unknown_opcode_faults(s: State)
    requires
        s.status == Status::Running,
        0 <= s.pc < MEMORY_SIZE,
        s.memory[s.pc] > 21,
    ensures
        s.step() == s.fail(Fault::UnknownOpcode),
        s.next().pc == s.pc,
{
}

/// An instruction that does not redirect the machine is followed by the
/// word behind its last operand: the engine moves on by exactly the
/// number of words that the opcode table gives the instruction.
pub proof fn lemma_falls_through(s: State)
    requires
        s.status == Status::Running,
        s.fetch() is Ok,
        !redirects(s.fetch()->Ok_0.op),
        s.execute(s.fetch()->Ok_0) is Ok,
    ensures
        s.next().pc == s.pc + 1 + s.fetch()->Ok_0.op.arity(),
{
}

/// Conditional jumps that are not taken fall through as well.
pub proof fn lemma_jump_not_taken(s: State)
    requires
        s.status == Status::Running,
        s.fetch() is Ok,
        s.execute(s.fetch()->Ok_0) is Ok,
        s.fetch()->Ok_0.op == Opcode::Jt ==> s.value(s.fetch()->Ok_0.a)->Ok_0 == 0,
        s.fetch()->Ok_0.op == Opcode::Jf ==> s.value(s.fetch()->Ok_0.a)->Ok_0 != 0,
        s.fetch()->Ok_0.op == Opcode::Jt || s.fetch()->Ok_0.op == Opcode::Jf,
    ensures
        s.next() == (State { pc: s.pc + 3, ..s }),
{
}

/// Memory is written by `wmem` alone, and only at the address that its
/// first operand gives.
pub proof fn lemma_memory_changes_only_by_wmem(s: State, byte: u8, i: int)
    requires
        s.wf(),
        0 <= i < MEMORY_SIZE,
    ensures
        s.next().memory[i] != s.memory[i] ==> at(s, Opcode::Wmem) && s.value(s.fetch()->Ok_0.a)
            == Ok::<u16, Fault>(i as u16),
        s.deliver(byte).memory == s.memory,
{
}

/// A register changes only as the destination of an instruction: by a
/// step of an instruction that stores, or by the delivery of a character
/// to an `in`; and then it is the register that the first operand names.
pub proof fn lemma_registers_change_only_as_destination(s: State, byte: u8, i: int)
    requires
        s.wf(),
        0 <= i < 8,
    ensures
        s.next().registers[i] != s.registers[i] ==> s.status == Status::Running && s.fetch() is Ok
            && stores(s.fetch()->Ok_0.op) && slot(s.fetch()->Ok_0.a) == Ok::<int, Fault>(i),
        s.deliver(byte).registers[i] != s.registers[i] ==> at(s, Opcode::In) && slot(
            s.fetch()->Ok_0.a,
        ) == Ok::<int, Fault>(i),
{
}

/// What an arithmetic, bitwise or comparing instruction stores is a 15-bit
/// value, however large the values it worked on; and it stores nothing
/// anywhere else.
pub proof fn lemma_computed_values_fit(s: State)
    requires
        s.wf(),
        s.status == Status::Running,
        s.fetch() is Ok,
        computes(s.fetch()->Ok_0.op),
        s.execute(s.fetch()->Ok_0) is Ok,
    ensures
        slot(s.fetch()->Ok_0.a) is Ok,
        s.next().registers[slot(s.fetch()->Ok_0.a)->Ok_0] <= 32767,
        forall|i: int|
            0 <= i < 8 && i != slot(s.fetch()->Ok_0.a)->Ok_0 ==> s.next().registers[i]
                == s.registers[i],
        s.next().memory == s.memory,
        s.next().stack == s.stack,
{
    let ins = s.fetch()->Ok_0;
    if ins.op == Opcode::And || ins.op == Opcode::Or {
        let x = s.value(ins.b)->Ok_0;
        let y = s.value(ins.c)->Ok_0;
        assert(((x & y) & 0x7FFFu16) <= 32767) by (bit_vector);
        assert(((x | y) & 0x7FFFu16) <= 32767) by (bit_vector);
    }
}

/// A run never reads more input than there is.
pub proof fn lemma_run_reads_within_input(s: State, input: Seq<u8>, limit: nat)
    ensures
        s.run(input, limit).consumed <= input.len(),
    decreases limit,
{
    if limit > 0 {
        let rest = (limit - 1) as nat;
        lemma_run_reads_within_input(s.next(), input, rest);
        if input.len() > 0 {
            lemma_run_reads_within_input(s.deliver(input.first()), input.drop_first(), rest);
        }
    }
}

/// A run that ended for another reason than its limit is not changed by a
/// higher limit. A run that ended at its limit can be taken up again: to
/// run on from where it stopped, on the input it has not read, is to have
/// run with the higher limit from the start.
pub proof fn lemma_run_resumes(s: State, input: Seq<u8>, limit: nat, more: nat)
    ensures
        s.run(input, limit).stop != Stop::LimitReached ==> s.run(input, limit + more) == s.run(
            input,
            limit,
        ),
        s.run(input, limit).stop == Stop::LimitReached ==> s.run(input, limit + more) == s.run(
            input,
            limit,
        ).state.run(input.skip(s.run(input, limit).consumed as int), more).after(
            s.run(input, limit).output,
            s.run(input, limit).consumed,
        ),
    decreases limit,
{
    let first = s.run(input, limit);
    let whole = s.run(input, limit + more);
    if limit == 0 {
        assert(input.skip(0) =~= input);
        assert(whole =~= whole.after(Seq::empty(), 0));
    } else {
        let rest = (limit - 1) as nat;
        assert((limit + more - 1) as nat == rest + more);
        match s.step() {
            (state, Outcome::Continue) => {
                lemma_run_resumes(state, input, rest, more);
            },
            (state, Outcome::Output(byte)) => {
                lemma_run_resumes(state, input, rest, more);
                let inner = state.run(input, rest);
                if inner.stop == Stop::LimitReached {
                    let tail = inner.state.run(input.skip(inner.consumed as int), more);
                    assert(tail.after(inner.output, inner.consumed).after(seq![byte], 0)
                        =~= tail.after(first.output, first.consumed));
                }
            },
            (_, Outcome::Input) => {
                if input.len() > 0 {
                    let fed = s.deliver(input.first());
                    let unread = input.drop_first();
                    lemma_run_resumes(fed, unread, rest, more);
                    lemma_run_reads_within_input(fed, unread, rest);
                    let inner = fed.run(unread, rest);
                    assert(first == inner.after(Seq::empty(), 1));
                    if inner.stop == Stop::LimitReached {
                        assert(unread.skip(inner.consumed as int) =~= input.skip(
                            first.consumed as int,
                        ));
                        let tail = inner.state.run(unread.skip(inner.consumed as int), more);
                        assert(tail.after(inner.output, inner.consumed).after(Seq::empty(), 1)
                            =~= tail.after(first.output, first.consumed));
                    }
                }
            },
            (_, Outcome::Halted) => {},
            (_, Outcome::Faulted(_)) => {},
        }
    }
}

/// One step or one delivery moves the stack by at most one word: it stays,
/// or grows by one, or loses its top.
pub proof fn lemma_stack_moves_by_one(from: State, to: State)
    requires
        follows(from, to),
    ensures
        to.stack == from.stack || (exists|word: u16| to.stack == from.stack.push(word)) || (
        from.stack.len() > 0 && to.stack == from.stack.drop_last()),
{
    if to == from.next() {
        if from.status == Status::Running && from.fetch() is Ok {
            let ins = from.fetch()->Ok_0;
            if from.execute(ins) is Ok {
                match ins.op {
                    Opcode::Push => {
                        assert(to.stack == from.stack.push(from.value(ins.a)->Ok_0));
                    },
                    Opcode::Call => {
                        assert(to.stack == from.stack.push((from.pc + 2) as u16));
                    },
                    _ => {},
                }
            }
        }
    }
}

/// Words below a depth that the stack never falls under are never touched.
pub proof fn lemma_stack_below_is_kept(path: Seq<State>, depth: nat, k: int)
    requires
        is_path(path),
        0 <= k < path.len(),
        forall|i: int| 0 <= i <= k ==> (#[trigger] path[i]).stack.len() >= depth,
    ensures
        path[k].stack.take(depth as int) == path[0].stack.take(depth as int),
    decreases k,
{
    if k > 0 {
        lemma_stack_below_is_kept(path, depth, k - 1);
        assert(follows(path[k - 1], path[k - 1 + 1]));
        lemma_stack_moves_by_one(path[k - 1], path[k]);
        assert(path[k].stack.take(depth as int) =~= path[k - 1].stack.take(depth as int));
    }
}

/// A `call` is matched by the `ret` that finds the stack as the call left
/// it. Take any stretch of history that begins with a successful `call`
/// and ends with a `ret`, executed when the stack is as deep as right
/// after the call, and in between never less deep. However many calls and
/// returns lie in between, that `ret` continues at the word after the
/// call's operand, two words after the call, and the stack is what it was
/// before the call.
pub proof fn lemma_call_returns(path: Seq<State>)
    requires
        path.len() >= 3,
        is_path(path),
        at(path[0], Opcode::Call),
        path[0].value(path[0].fetch()->Ok_0.a) is Ok,
        path[1] == path[0].next(),
        forall|i: int|
            1 <= i < path.len() - 1 ==> (#[trigger] path[i]).stack.len() >= path[1].stack.len(),
        at(path[path.len() - 2], Opcode::Ret),
        path[path.len() - 2].stack.len() == path[1].stack.len(),
        path.last() == path[path.len() - 2].next(),
    ensures
        path.last().pc == path[0].pc + 2,
        path.last().stack == path[0].stack,
        path.last().status == Status::Running,
{
    let n = path.len() - 1;
    let before = path[0];
    let pushed = path[1].stack;
    let inner = path.subrange(1, n);
    assert(pushed == before.stack.push((before.pc + 2) as u16));
    assert(is_path(inner)) by {
        assert forall|i: int| 0 <= i < inner.len() - 1 implies #[trigger] follows(
            inner[i],
            inner[i + 1],
        ) by {
            assert(follows(path[i + 1], path[i + 1 + 1]));
        }
    }
    assert forall|i: int| 0 <= i <= n - 2 implies (#[trigger] inner[i]).stack.len()
        >= pushed.len() by {
        assert(path[i + 1].stack.len() >= pushed.len());
    }
    lemma_stack_below_is_kept(inner, pushed.len(), n - 2);
    let leaving = path[n - 1];
    assert(leaving == inner[n - 2]);
    assert(leaving.stack =~= leaving.stack.take(pushed.len() as int));
    assert(pushed =~= pushed.take(pushed.len() as int));
    assert(leaving.stack == pushed);
    assert(pushed.drop_last() =~= before.stack);
}

} // verus!
