//! The internal command queue: bounded, ordered, never reordering.
//!
//! The dispatcher enqueues split commands at the back; the submitter
//! drains them from the front, so commands reach the window manager in
//! the exact order they were enqueued. A full queue accepts nothing and
//! drops nothing: the producer must hold the command and try again, which
//! is the backpressure the system relies on under burst focus changes.

use vstd::prelude::*;

use crate::heuristic::SplitCommand;

verus! {

/// A bounded FIFO queue of split commands.
pub struct CommandQueue {
    items: Vec<SplitCommand>,
    cap: usize,
}

impl View for CommandQueue {
    type V = Seq<SplitCommand>;

    /// The commands held, front first.
    closed spec fn view(&self) -> Seq<SplitCommand> {
        self.items@
    }
}

impl CommandQueue {
    /// The bound the queue was created with.
    pub closed spec fn spec_capacity(self) -> nat {
        self.cap as nat
    }

    /// The queue never holds more than its capacity, and the capacity is
    /// at least one.
    pub open spec fn wf(self) -> bool {
        &&& self@.len() <= self.spec_capacity()
        &&& self.spec_capacity() >= 1
    }

    /// An empty queue with room for `capacity` commands.
    pub fn new(capacity: usize) -> (q: CommandQueue)
        requires
            capacity >= 1,
        ensures
            q.wf(),
            q@ == Seq::<SplitCommand>::empty(),
            q.spec_capacity() == capacity as nat,
    {
        CommandQueue { items: Vec::new(), cap: capacity }
    }

    /// How many commands wait in the queue.
    pub fn len(&self) -> (n: usize)
        ensures
            n == self@.len(),
    {
        self.items.len()
    }

    /// The bound the queue was created with.
    pub fn capacity(&self) -> (n: usize)
        ensures
            n as nat == self.spec_capacity(),
    {
        self.cap
    }

    /// Append `command` at the back, unless the queue is full. The result
    /// says whether the command was accepted; a rejected command leaves
    /// the queue exactly as it was, so nothing is ever dropped silently.
    pub fn push(&mut self, command: SplitCommand) -> (accepted: bool)
        requires
            old(self).wf(),
        ensures
            final(self).wf(),
            final(self).spec_capacity() == old(self).spec_capacity(),
            accepted == (old(self)@.len() < old(self).spec_capacity()),
            accepted ==> final(self)@ == old(self)@.push(command),
            !accepted ==> final(self)@ == old(self)@,
    {
        if self.items.len() < self.cap {
            self.items.push(command);
            true
        } else {
            false
        }
    }

    /// Remove and return the front command: the one enqueued before every
    /// other command still in the queue. An empty queue yields nothing and
    /// stays as it is.
    pub fn pop(&mut self) -> (front: Option<SplitCommand>)
        requires
            old(self).wf(),
        ensures
            final(self).wf(),
            final(self).spec_capacity() == old(self).spec_capacity(),
            old(self)@.len() == 0 ==> front == Option::<SplitCommand>::None && final(self)@
                == old(self)@,
            old(self)@.len() > 0 ==> front == Option::Some(old(self)@[0]) && final(self)@
                == old(self)@.remove(0),
    {
        if self.items.len() > 0 {
            Option::Some(self.items.remove(0))
        } else {
            Option::None
        }
    }
}

/// Commands leave the queue in the order they entered. Starting from
/// contents `s`, enqueueing `x` and then `y` places `x` nearer the front;
/// each pop returns the front of what remains and removing the front of
/// the contents after `k` pops leaves the contents after `k + 1` pops — so
/// `x` is returned by an earlier pop than `y`, whatever else the queue
/// held.
pub proof fn lemma_fifo_order(s: Seq<SplitCommand>, x: SplitCommand, y: SplitCommand)
    ensures
        ({
            let t = s.push(x).push(y);
            &&& t[s.len() as int] == x
            &&& t[s.len() as int + 1] == y
            &&& forall|k: int|
                0 <= k < t.len() ==> (#[trigger] t.subrange(k, t.len() as int))[0] == t[k]
            &&& forall|k: int|
                0 <= k < t.len() ==> (#[trigger] t.subrange(k, t.len() as int)).remove(0)
                    == t.subrange(k + 1, t.len() as int)
        }),
{
    let t = s.push(x).push(y);
    assert forall|k: int| 0 <= k < t.len() implies (#[trigger] t.subrange(k, t.len() as int)).remove(
        0,
    ) == t.subrange(k + 1, t.len() as int) by {
        assert(t.subrange(k, t.len() as int).remove(0) =~= t.subrange(k + 1, t.len() as int));
    }
}

} // verus!
