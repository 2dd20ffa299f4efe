//! FIFO queue of uncommitted events.
//!
//! Every aggregate owns one: command methods append the events they emit,
//! and a repository drains it on save. The view is the sequence of queued
//! events, oldest first.

use vstd::prelude::*;

verus! {

/// FIFO queue of events an aggregate has emitted but not yet persisted.
#[derive(Debug)]
pub struct EventQueue<T> {
    pub items: Vec<T>,
}

impl<T> View for EventQueue<T> {
    type V = Seq<T>;

    open spec fn view(&self) -> Seq<T> {
        self.items@
    }
}

impl<T> EventQueue<T> {
    /// An empty queue.
    pub fn new() -> (r: Self)
        ensures
            r@ == Seq::<T>::empty(),
    {
        EventQueue { items: Vec::new() }
    }

    /// Number of queued events.
    pub fn len(&self) -> (r: usize)
        ensures
            r == self@.len(),
    {
        self.items.len()
    }

    /// The oldest queued event, without removing it.
    pub fn peek(&self) -> (r: Option<&T>)
        ensures
            match r {
                Some(e) => self@.len() > 0 && *e == self@[0],
                None => self@.len() == 0,
            },
    {
        if self.items.len() > 0 {
            Some(&self.items[0])
        } else {
            None
        }
    }

    /// Appends an event at the back.
    pub fn push(&mut self, value: T)
        ensures
            final(self)@ == old(self)@.push(value),
    {
        self.items.push(value);
    }

    /// Removes and returns the oldest event.
    pub fn pop(&mut self) -> (r: Option<T>)
        ensures
            match r {
                Some(e) => old(self)@.len() > 0 && e == old(self)@[0] && final(self)@
                    == old(self)@.drop_first(),
                None => old(self)@.len() == 0 && final(self)@ == old(self)@,
            },
    {
        if self.items.len() > 0 {
            Some(self.items.remove(0))
        } else {
            None
        }
    }

    /// Removes and returns all queued events, oldest first.
    pub fn pop_all(&mut self) -> (r: Vec<T>)
        ensures
            r@ == old(self)@,
            final(self)@ == Seq::<T>::empty(),
    {
        let mut drained: Vec<T> = Vec::new();
        core::mem::swap(&mut drained, &mut self.items);
        drained
    }

    /// Drops every queued event.
    pub fn clear(&mut self)
        ensures
            final(self)@ == Seq::<T>::empty(),
    {
        self.items.clear();
    }
}

/// No two positions of `s` hold the same value.
pub open spec fn distinct_seq<T>(s: Seq<T>) -> bool {
    forall|i: int, j: int| 0 <= i < j < s.len() ==> s[i] != s[j]
}

/// A copy of a vector of copyable values, holding the same elements.
pub fn clone_vec<T: Copy>(v: &Vec<T>) -> (r: Vec<T>)
    ensures
        r@ == v@,
{
    let mut r: Vec<T> = Vec::new();
    let n = v.len();
    let mut i: usize = 0;
    while i < n
        invariant
            0 <= i <= n,
            n == v@.len(),
            r@ =~= v@.subrange(0, i as int),
        decreases n - i,
    {
        r.push(v[i]);
        i = i + 1;
    }
    proof {
        assert(r@ =~= v@);
    }
    r
}

impl<T> Default for EventQueue<T> {
    /// The default queue is empty.
    fn default() -> (r: Self)
        ensures
            r@ == Seq::<T>::empty(),
    {
        EventQueue::new()
    }
}

} // verus!
