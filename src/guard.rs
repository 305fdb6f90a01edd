//! The scope token: recording pushes one entry and hands out a guard; releasing the guard
//! pops exactly one entry from the same stack.
use vstd::prelude::*;
use crate::stack::{after_pop, pop_result, Frame, ValueStack};

verus! {

/// The obligation to pop one entry from the stack it was issued for. It cannot be cloned,
/// and releasing it consumes it, so it is released at most once.
pub struct Guard {}

/// What releasing a guard found on the stack.
#[derive(Clone, Copy, Debug, PartialEq, Eq)]
pub enum Release {
    /// The top entry was removed.
    Popped(Frame),
    /// The stack was already empty: the guard had no matching push.
    Underflow,
}

/// The release outcome that matches a pop result.
pub open spec fn release_of(p: Option<Frame>) -> Release {
    match p {
        Some(e) => Release::Popped(e),
        None => Release::Underflow,
    }
}

/// Pushes `(name, value)` onto `stack` and returns the guard that will pop it.
pub fn record(stack: &mut ValueStack, name: &'static str, value: u64) -> (r: Guard)
    ensures
        final(stack)@ == old(stack)@.push((Frame { name, value })),
{
    stack.push(name, value);
    Guard {}
}

impl Guard {
    /// Pops one entry from `stack`. An empty stack is left empty and reported as an
    /// underflow; this never fails.
    pub fn release(self, stack: &mut ValueStack) -> (r: Release)
        ensures
            r == release_of(pop_result(old(stack)@)),
            final(stack)@ == after_pop(old(stack)@),
    {
        match stack.pop_top() {
            Some(e) => Release::Popped(e),
            None => Release::Underflow,
        }
    }
}

impl Release {
    /// The diagnostic to emit for this outcome: a message on underflow, none otherwise.
    pub fn diagnostic(&self) -> (r: Option<&'static str>)
        ensures
            r is Some <==> *self is Underflow,
            r is Some ==> r->0@ == UNDERFLOW_MESSAGE@,
    {
        match self {
            Release::Popped(_) => None,
            Release::Underflow => Some(UNDERFLOW_MESSAGE),
        }
    }
}

/// Emitted when a guard finds nothing to pop.
pub const UNDERFLOW_MESSAGE: &'static str = "FrameGuard dropped without matching push";

} // verus!
