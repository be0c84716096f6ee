use wordvm::fault::Fault;
use wordvm::stack::Stack;

#[test]
fn a_new_stack_is_empty() {
    let stack = Stack::new();
    assert!(stack.is_empty());
    assert_eq!(stack.len(), 0);
    assert_eq!(stack.peek(), None);
}

#[test]
fn pop_on_an_empty_stack_is_an_underflow() {
    let mut stack = Stack::new();
    assert_eq!(stack.pop(), Err(Fault::StackUnderflow));
    assert!(stack.is_empty());
    stack.push(1);
    assert_eq!(stack.pop(), Ok(1));
    assert_eq!(stack.pop(), Err(Fault::StackUnderflow));
    assert_eq!(stack.pop(), Err(Fault::StackUnderflow));
}

#[test]
fn pops_return_pushes_in_reverse() {
    let values = [3u16, 1, 4, 1, 5, 9, 2, 6, 65535, 0];
    let mut stack = Stack::new();
    stack.push(77);
    for v in values {
        stack.push(v);
    }
    assert_eq!(stack.len(), 11);
    let mut popped = Vec::new();
    for _ in 0..values.len() {
        popped.push(stack.pop().unwrap());
    }
    let mut reversed = values.to_vec();
    reversed.reverse();
    assert_eq!(popped, reversed);
    assert_eq!(stack.len(), 1);
    assert_eq!(stack.peek(), Some(77));
}

#[test]
fn peek_shows_the_top_and_leaves_it() {
    let mut stack = Stack::new();
    stack.push(10);
    stack.push(20);
    assert_eq!(stack.peek(), Some(20));
    assert_eq!(stack.len(), 2);
    assert_eq!(stack.pop(), Ok(20));
    assert_eq!(stack.peek(), Some(10));
}

#[test]
fn interleaved_pushes_and_pops() {
    let mut stack = Stack::new();
    stack.push(1);
    stack.push(2);
    assert_eq!(stack.pop(), Ok(2));
    stack.push(3);
    assert_eq!(stack.pop(), Ok(3));
    assert_eq!(stack.pop(), Ok(1));
    assert!(stack.is_empty());
}
