use frame_values::{record, Frame, Guard, Release, ValueStack, UNDERFLOW_MESSAGE};

fn entry(name: &'static str, value: u64) -> Frame {
    Frame { name, value }
}

#[test]
fn new_stack_is_empty() {
    let stack = ValueStack::new();
    assert_eq!(stack.depth(), 0);
    assert!(stack.snapshot().is_empty());
}

#[test]
fn balanced_guards_return_to_zero() {
    let mut stack = ValueStack::new();
    let a = record(&mut stack, "a", 1);
    let b = record(&mut stack, "b", 2);
    let c = record(&mut stack, "c", 3);
    assert_eq!(stack.depth(), 3);
    assert_eq!(c.release(&mut stack), Release::Popped(entry("c", 3)));
    assert_eq!(b.release(&mut stack), Release::Popped(entry("b", 2)));
    assert_eq!(a.release(&mut stack), Release::Popped(entry("a", 1)));
    assert_eq!(stack.depth(), 0);
}

#[test]
fn balance_holds_on_a_non_empty_stack() {
    let mut stack = ValueStack::new();
    stack.push("outer", 9);
    let g1 = record(&mut stack, "x", 10);
    let g2 = record(&mut stack, "y", 11);
    g2.release(&mut stack);
    g1.release(&mut stack);
    assert_eq!(stack.snapshot(), vec![entry("outer", 9)]);
}

#[test]
fn snapshot_keeps_push_order() {
    let mut stack = ValueStack::new();
    stack.push("A", 1);
    stack.push("B", 2);
    stack.push("C", 3);
    assert_eq!(stack.snapshot(), vec![entry("A", 1), entry("B", 2), entry("C", 3)]);
    assert_eq!(stack.depth(), 3);
}

#[test]
fn pop_returns_the_entry_just_pushed() {
    let mut stack = ValueStack::new();
    stack.push("first", 5);
    stack.push("phase", u64::MAX);
    assert_eq!(stack.pop_top(), Some(entry("phase", u64::MAX)));
    assert_eq!(stack.snapshot(), vec![entry("first", 5)]);
}

#[test]
fn pop_on_empty_stack_is_none() {
    let mut stack = ValueStack::new();
    assert_eq!(stack.pop_top(), None);
    assert_eq!(stack.depth(), 0);
}

#[test]
fn extra_release_is_an_underflow() {
    let mut stack = ValueStack::new();
    let first = record(&mut stack, "only", 1);
    let unmatched = Guard {};
    assert_eq!(first.release(&mut stack), Release::Popped(entry("only", 1)));
    let outcome = unmatched.release(&mut stack);
    assert_eq!(outcome, Release::Underflow);
    assert_eq!(stack.depth(), 0);
    assert_eq!(outcome.diagnostic(), Some(UNDERFLOW_MESSAGE));
    assert_eq!(UNDERFLOW_MESSAGE, "FrameGuard dropped without matching push");
}

#[test]
fn popped_release_has_no_diagnostic() {
    assert_eq!(Release::Popped(entry("a", 0)).diagnostic(), None);
}

#[test]
fn separate_stacks_do_not_share_entries() {
    let mut one = ValueStack::new();
    let mut two = ValueStack::new();
    let g = record(&mut one, "t1", 1);
    assert!(two.snapshot().is_empty());
    two.push("t2", 2);
    assert_eq!(one.snapshot(), vec![entry("t1", 1)]);
    assert_eq!(two.snapshot(), vec![entry("t2", 2)]);
    g.release(&mut one);
    assert_eq!(two.depth(), 1);
}
