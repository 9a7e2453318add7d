//! The FIFO of pending backup tasks: the scheduler pushes at the tail, the
//! executor pops from the head.

use vstd::prelude::*;
use std::collections::VecDeque;

verus! {

/// A first-in-first-out queue. Popping never blocks: an empty queue just
/// reports that it has nothing.
#[derive(Debug)]
pub struct TaskQueue<T> {
    tasks: VecDeque<T>,
}

impl<T> View for TaskQueue<T> {
    type V = Seq<T>;

    closed spec fn view(&self) -> Seq<T> {
        self.tasks@
    }
}

impl<T> TaskQueue<T> {
    /// An empty queue.
    pub fn new() -> (r: Self)
        ensures
            r@ == Seq::<T>::empty(),
    {
        TaskQueue { tasks: VecDeque::new() }
    }

    /// Enqueues at the tail.
    pub fn pushb(&mut self, val: T)
        ensures
            final(self)@ == old(self)@.push(val),
    {
        self.tasks.push_back(val);
    }

    /// Dequeues from the head; `None` when the queue is empty.
    pub fn popf(&mut self) -> (r: Option<T>)
        ensures
            (match r {
                Some(x) => old(self)@.len() > 0 && x == old(self)@[0]
                    && final(self)@ == old(self)@.subrange(1, old(self)@.len() as int),
                None => old(self)@.len() == 0 && final(self)@ == old(self)@,
            }),
    {
        self.tasks.pop_front()
    }

    /// Whether nothing is pending.
    pub fn is_empty(&self) -> (r: bool)
        ensures
            r == (self@.len() == 0),
    {
        self.tasks.len() == 0
    }

    /// Number of pending entries.
    pub fn len(&self) -> (r: usize)
        ensures
            r == self@.len(),
    {
        self.tasks.len()
    }

    /// Reads the head without removing it.
    pub fn peek(&self) -> (r: Option<&T>)
        ensures
            (match r {
                Some(x) => self@.len() > 0 && *x == self@[0],
                None => self@.len() == 0,
            }),
    {
        if self.tasks.len() > 0 {
            Some(&self.tasks[0])
        } else {
            None
        }
    }
}

} // verus!
