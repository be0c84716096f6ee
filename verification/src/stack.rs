//! The value stack: words are added and removed at one end only.

use vstd::prelude::*;
use crate::fault::Fault;

verus! {

/// A last-in, first-out sequence of words. The top of the stack is the last
/// element of its view.
pub struct Stack {
    items: Vec<u16>,
}

impl View for Stack {
    type V = Seq<u16>;

    closed spec fn view(&self) -> Seq<u16> {
        self.items@
    }
}

impl Stack {
    /// An empty stack.
    pub fn new() -> (stack: Stack)
        ensures
            stack@ == Seq::<u16>::empty(),
    {
        Stack { items: Vec::new() }
    }

    /// The number of words on the stack.
    pub fn len(&self) -> (n: usize)
        ensures
            n == self@.len(),
    {
        self.items.len()
    }

    /// Whether the stack holds no word.
    pub fn is_empty(&self) -> (empty: bool)
        ensures
            empty <==> self@.len() == 0,
    {
        self.items.len() == 0
    }

    /// The word on top, if there is one. The stack is left as it is.
    pub fn peek(&self) -> (top: Option<u16>)
        ensures
            top == (if self@.len() == 0 {
                None
            } else {
                Some(self@.last())
            }),
    {
        let n = self.items.len();
        if n == 0 {
            None
        } else {
            Some(self.items[n - 1])
        }
    }

    /// Puts `value` on top.
    pub fn push(&mut self, value: u16)
        ensures
            final(self)@ == old(self)@.push(value),
    {
        self.items.push(value);
    }

    /// Takes the top word off and returns it. An empty stack is left empty
    /// and reported as an underflow.
    pub fn pop(&mut self) -> (top: Result<u16, Fault>)
        ensures
            top == pop_value(old(self)@),
            final(self)@ == pop_rest(old(self)@),
            old(self)@.len() == 0 ==> top == Err::<u16, Fault>(Fault::StackUnderflow)
                && final(self)@ == old(self)@,
            old(self)@.len() > 0 ==> top == Ok::<u16, Fault>(old(self)@.last())
                && final(self)@ == old(self)@.drop_last(),
    {
        match self.items.pop() {
            Some(value) => Ok(value),
            None => Err(Fault::StackUnderflow),
        }
    }
}

/// What a pop returns on the stack `s`.
pub open spec fn pop_value(s: Seq<u16>) -> Result<u16, Fault> {
    if s.len() == 0 {
        Err(Fault::StackUnderflow)
    } else {
        Ok(s.last())
    }
}

/// What a pop leaves of the stack `s`.
pub open spec fn pop_rest(s: Seq<u16>) -> Seq<u16> {
    if s.len() == 0 {
        s
    } else {
        s.drop_last()
    }
}

/// The stack `s` after the words of `values` were pushed in order.
pub open spec fn push_all(s: Seq<u16>, values: Seq<u16>) -> Seq<u16>
    decreases values.len(),
{
    if values.len() == 0 {
        s
    } else {
        push_all(s.push(values.first()), values.drop_first())
    }
}

/// The results of `n` pops on the stack `s`, in the order in which they
/// come out.
pub open spec fn pop_values(s: Seq<u16>, n: nat) -> Seq<Result<u16, Fault>>
    decreases n,
{
    if n == 0 {
        Seq::empty()
    } else {
        seq![pop_value(s)] + pop_values(pop_rest(s), (n - 1) as nat)
    }
}

/// What `n` pops leave of the stack `s`.
pub open spec fn pop_rests(s: Seq<u16>, n: nat) -> Seq<u16>
    decreases n,
{
    if n == 0 {
        s
    } else {
        pop_rests(pop_rest(s), (n - 1) as nat)
    }
}

/// Pushing a run of words is the same as appending it.
pub proof fn lemma_push_all_appends(s: Seq<u16>, values: Seq<u16>)
    ensures
        push_all(s, values) == s + values,
    decreases values.len(),
{
    if values.len() == 0 {
        assert(s + values =~= s);
    } else {
        lemma_push_all_appends(s.push(values.first()), values.drop_first());
        assert(s.push(values.first()) + values.drop_first() =~= s + values);
    }
}

/// Round trip: after any run of pushes, the same number of pops succeeds,
/// returns the pushed words in reverse order, and leaves the stack as it
/// was before the first push.
pub proof fn lemma_push_pop_round_trip(s: Seq<u16>, values: Seq<u16>)
    ensures
        pop_values(push_all(s, values), values.len()) == values.reverse().map_values(
            |v: u16| Ok::<u16, Fault>(v),
        ),
        pop_rests(push_all(s, values), values.len()) == s,
    decreases values.len(),
{
    let n = values.len();
    lemma_push_all_appends(s, values);
    if n == 0 {
        assert(pop_values(s, 0) =~= values.reverse().map_values(|v: u16| Ok::<u16, Fault>(v)));
    } else {
        let front = values.drop_last();
        let full = s + values;
        assert(full.last() == values.last());
        assert(full.drop_last() =~= s + front);
        lemma_push_all_appends(s, front);
        lemma_push_pop_round_trip(s, front);
        assert(pop_rest(full) == push_all(s, front));
        let expected = values.reverse().map_values(|v: u16| Ok::<u16, Fault>(v));
        let tail = front.reverse().map_values(|v: u16| Ok::<u16, Fault>(v));
        assert(expected =~= seq![Ok::<u16, Fault>(values.last())] + tail);
    }
}

} // verus!
