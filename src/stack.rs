//! The value stack: entries in push order, bottom first.
use vstd::prelude::*;

verus! {

/// One recorded observation: a static label and a 64-bit payload.
#[derive(Clone, Copy, Debug, PartialEq, Eq)]
pub struct Frame {
    pub name: &'static str,
    pub value: u64,
}

/// The stack after one pop: the last entry removed, or unchanged when it is empty.
pub open spec fn after_pop(s: Seq<Frame>) -> Seq<Frame> {
    if s.len() == 0 {
        s
    } else {
        s.drop_last()
    }
}

/// What one pop hands back: the last entry, or nothing when the stack is empty.
pub open spec fn pop_result(s: Seq<Frame>) -> Option<Frame> {
    if s.len() == 0 {
        None
    } else {
        Some(s.last())
    }
}

/// The stack after `n` pops in a row.
pub open spec fn after_pops(s: Seq<Frame>, n: nat) -> Seq<Frame>
    decreases n,
{
    if n == 0 {
        s
    } else {
        after_pops(after_pop(s), (n - 1) as nat)
    }
}

/// The stack after pushing each entry of `es`, first to last.
pub open spec fn after_pushes(s: Seq<Frame>, es: Seq<Frame>) -> Seq<Frame>
    decreases es.len(),
{
    if es.len() == 0 {
        s
    } else {
        after_pushes(s, es.drop_last()).push(es.last())
    }
}

/// Balance: pushes followed by as many pops, the latest pushed popped first, give back the
/// stack as it was before the pushes; from an empty stack the depth returns to zero.
pub proof fn lemma_balanced(s: Seq<Frame>, es: Seq<Frame>)
    ensures
        after_pops(after_pushes(s, es), es.len()) == s,
        s.len() == 0 ==> after_pops(after_pushes(s, es), es.len()).len() == 0,
    decreases es.len(),
{
    if es.len() > 0 {
        let rest = es.drop_last();
        assert(after_pop(after_pushes(s, es)) == after_pushes(s, rest));
        lemma_balanced(s, rest);
    }
}

/// Order: pushing entries one after another leaves them in push order, bottom first, so a
/// snapshot of a stack that started empty is exactly the pushed sequence.
pub proof fn lemma_push_order(s: Seq<Frame>, es: Seq<Frame>)
    ensures
        after_pushes(s, es) == s + es,
        s.len() == 0 ==> after_pushes(s, es) == es,
    decreases es.len(),
{
    if es.len() > 0 {
        lemma_push_order(s, es.drop_last());
        assert(s + es == (s + es.drop_last()).push(es.last()));
    }
    assert(s.len() == 0 ==> s + es == es);
}

/// A pop right after a push returns the pushed entry and restores the stack.
pub proof fn lemma_pop_after_push(s: Seq<Frame>, e: Frame)
    ensures
        pop_result(s.push(e)) == Some(e),
        after_pop(s.push(e)) == s,
{
    assert(s.push(e).drop_last() == s);
}

/// Underflow: pops past the bottom do nothing, so `n` pops on a stack of depth `d` leave
/// depth `d - n`, or zero when `n` is at least `d`; never less.
pub proof fn lemma_pops_floor_at_zero(s: Seq<Frame>, n: nat)
    ensures
        after_pops(s, n).len() == if n >= s.len() { 0 } else { s.len() - n },
        after_pop(Seq::<Frame>::empty()) == Seq::<Frame>::empty(),
    decreases n,
{
    if n > 0 {
        lemma_pops_floor_at_zero(after_pop(s), (n - 1) as nat);
    }
}

/// Ordered entries, most recently pushed on top.
pub struct ValueStack {
    entries: Vec<Frame>,
}

impl View for ValueStack {
    type V = Seq<Frame>;

    closed spec fn view(&self) -> Seq<Frame> {
        self.entries@
    }
}

impl ValueStack {
    /// An empty stack.
    pub fn new() -> (r: ValueStack)
        ensures
            r@ == Seq::<Frame>::empty(),
    {
        ValueStack { entries: Vec::new() }
    }

    /// Appends one entry on top.
    pub fn push(&mut self, name: &'static str, value: u64)
        ensures
            final(self)@ == old(self)@.push((Frame { name, value })),
    {
        self.entries.push(Frame { name, value });
    }

    /// Removes and returns the top entry; an empty stack stays empty.
    pub fn pop_top(&mut self) -> (r: Option<Frame>)
        ensures
            r == pop_result(old(self)@),
            final(self)@ == after_pop(old(self)@),
    {
        self.entries.pop()
    }

    /// The entries in push order, bottom to top, leaving the stack as it is.
    pub fn snapshot(&self) -> (r: Vec<Frame>)
        ensures
            r@ == self@,
    {
        self.entries.clone()
    }

    /// The number of entries.
    pub fn depth(&self) -> (r: usize)
        ensures
            r == self@.len(),
    {
        self.entries.len()
    }
}

} // verus!
