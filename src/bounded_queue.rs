use vstd::prelude::*;

verus! {

broadcast use vstd::seq::group_seq_axioms;

/// Why a write into a queue did not happen.
#[derive(Debug, Clone, Copy, PartialEq, Eq, Structural)]
pub enum QueueError {
    /// The queue already holds as many items as its capacity allows.
    Full,
}

/// A first-in first-out queue of fixed capacity with non-blocking reads and
/// writes: the medium behind the handshake and the session channels.
pub struct BoundedQueue<T> {
    items: Vec<T>,
    capacity: usize,
}

impl<T> View for BoundedQueue<T> {
    /// The items, oldest first.
    type V = Seq<T>;

    closed spec fn view(&self) -> Seq<T> {
        self.items@
    }
}

impl<T> BoundedQueue<T> {
    pub closed spec fn spec_capacity(&self) -> nat {
        self.capacity as nat
    }

    /// Never more items than the capacity.
    pub closed spec fn wf(&self) -> bool {
        self.items@.len() <= self.capacity
    }

    /// An empty queue that holds at most `capacity` items.
    pub fn new(capacity: usize) -> (r: Self)
        ensures
            r.wf(),
            r@ == Seq::<T>::empty(),
            r.spec_capacity() == capacity,
    {
        BoundedQueue { items: Vec::new(), capacity }
    }

    pub fn capacity(&self) -> (r: usize)
        ensures
            r == self.spec_capacity(),
    {
        self.capacity
    }

    pub fn len(&self) -> (r: usize)
        ensures
            r == self@.len(),
    {
        proof {
            assert(self@ == self.items@);
        }
        self.items.len()
    }

    /// Appends `t` at the back; fails, leaving the queue as it was, when the
    /// queue is full.
    pub fn try_write(&mut self, t: T) -> (r: Result<(), QueueError>)
        requires
            old(self).wf(),
        ensures
            final(self).wf(),
            final(self).spec_capacity() == old(self).spec_capacity(),
            old(self)@.len() < old(self).spec_capacity() ==> r is Ok && final(self)@ == old(
                self,
            )@.push(t),
            old(self)@.len() >= old(self).spec_capacity() ==> r == Err::<(), QueueError>(
                QueueError::Full,
            ) && final(self)@ == old(self)@,
    {
        proof {
            assert(self@ == self.items@);
        }
        if self.items.len() >= self.capacity {
            return Err(QueueError::Full);
        }
        self.items.push(t);
        proof {
            assert(self@ == self.items@);
        }
        Ok(())
    }

    /// Takes the oldest item; `None` when the queue is empty.
    pub fn try_read(&mut self) -> (r: Option<T>)
        requires
            old(self).wf(),
        ensures
            final(self).wf(),
            final(self).spec_capacity() == old(self).spec_capacity(),
            old(self)@.len() == 0 ==> r is None && final(self)@ == old(self)@,
            old(self)@.len() > 0 ==> r == Some(old(self)@[0]) && final(self)@ == old(
                self,
            )@.drop_first(),
    {
        proof {
            assert(self@ == self.items@);
        }
        if self.items.len() == 0 {
            return None;
        }
        let t = self.items.remove(0);
        proof {
            assert(self.items@ =~= old(self)@.drop_first());
            assert(self@ == self.items@);
        }
        Some(t)
    }

    /// Drops every item.
    pub fn clear(&mut self)
        ensures
            final(self).wf(),
            final(self).spec_capacity() == old(self).spec_capacity(),
            final(self)@ == Seq::<T>::empty(),
    {
        self.items.clear();
        proof {
            assert(self@ == self.items@);
        }
    }
}

} // verus!
