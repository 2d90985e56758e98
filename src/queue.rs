//! A bounded first-in first-out queue: what links two stages. A full queue
//! refuses an item, which holds the producer back.
use vstd::prelude::*;

verus! {

/// A FIFO queue that never holds more than `capacity` items.
pub struct BoundedQueue<T> {
    pub items: Vec<T>,
    pub capacity: usize,
}

impl<T> View for BoundedQueue<T> {
    type V = Seq<T>;

    open spec fn view(&self) -> Seq<T> {
        self.items@
    }
}

impl<T> BoundedQueue<T> {
    pub open spec fn wf(&self) -> bool {
        &&& self.capacity >= 1
        &&& self.items@.len() <= self.capacity
    }

    /// An empty queue that holds at most `capacity` items.
    pub fn new(capacity: usize) -> (r: BoundedQueue<T>)
        requires
            capacity >= 1,
        ensures
            r.wf(),
            r@.len() == 0,
            r.capacity == capacity,
    {
        BoundedQueue { items: Vec::new(), capacity }
    }

    pub fn len(&self) -> (r: usize)
        ensures
            r == self@.len(),
    {
        self.items.len()
    }

    pub fn is_full(&self) -> (r: bool)
        ensures
            r == (self@.len() >= self.capacity),
    {
        self.items.len() >= self.capacity
    }

    /// Appends `v` at the back; when the queue is full, hands `v` back and
    /// changes nothing.
    pub fn push(&mut self, v: T) -> (r: Result<(), T>)
        requires
            old(self).wf(),
        ensures
            final(self).wf(),
            final(self).capacity == old(self).capacity,
            old(self)@.len() < old(self).capacity ==> r is Ok && final(self)@ == old(self)@.push(v),
            old(self)@.len() >= old(self).capacity ==> r == Err::<(), T>(v) && final(self)@ == old(self)@,
    {
        if self.items.len() >= self.capacity {
            return Err(v);
        }
        self.items.push(v);
        Ok(())
    }

    /// Takes the item at the front, if any.
    pub fn pop(&mut self) -> (r: Option<T>)
        requires
            old(self).wf(),
        ensures
            final(self).wf(),
            final(self).capacity == old(self).capacity,
            old(self)@.len() == 0 ==> r is None && final(self)@ == old(self)@,
            old(self)@.len() > 0 ==> r == Some(old(self)@[0]) && final(self)@ == old(self)@.drop_first(),
    {
        if self.items.len() == 0 {
            return None;
        }
        let v = self.items.remove(0);
        proof {
            assert(self.items@ =~= old(self)@.drop_first());
        }
        Some(v)
    }
}

} // verus!
