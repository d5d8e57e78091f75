//! The hand-off queue between the interactive side and the compile
//! worker: a bounded FIFO. One such queue carries source-text jobs to the
//! worker; a second carries compile results back.
//!
//! The queue itself is single-threaded state with non-blocking operations;
//! the caller that owns each end supplies the blocking or polling loop
//! (block-and-retry on a full job queue for backpressure, poll-and-continue
//! on the result queue so the interactive side never stalls).

use vstd::prelude::*;

verus! {

/// The default capacity of each hand-off queue: small, so that rapid
/// requests cannot queue unbounded pending work.
pub const DEFAULT_CAPACITY: usize = 4;

/// A bounded FIFO queue: sending appends at the back, receiving takes the
/// front, and the element count never exceeds the fixed capacity.
pub struct BoundedQueue<T> {
    items: Vec<T>,
    capacity: usize,
}

impl<T> BoundedQueue<T> {
    /// The queued elements, oldest first.
    pub closed spec fn contents(&self) -> Seq<T> {
        self.items@
    }

    /// The fixed capacity the queue was created with.
    pub closed spec fn cap(&self) -> nat {
        self.capacity as nat
    }

    /// The queue never holds more elements than its capacity.
    pub closed spec fn inv(&self) -> bool {
        self.items@.len() <= self.capacity
    }

    pub fn new(capacity: usize) -> (q: Self)
        ensures
            q.contents() == Seq::<T>::empty(),
            q.cap() == capacity,
            q.inv(),
    {
        BoundedQueue { items: Vec::new(), capacity }
    }

    pub fn len(&self) -> (n: usize)
        ensures
            n == self.contents().len(),
    {
        self.items.len()
    }

    pub fn capacity(&self) -> (n: usize)
        ensures
            n == self.cap(),
    {
        self.capacity
    }

    /// Non-blocking send: appends the value at the back when there is
    /// room; on a full queue it hands the value back unchanged, and the
    /// caller blocks and retries.
    pub fn try_send(&mut self, v: T) -> (r: Result<(), T>)
        requires
            old(self).inv(),
        ensures
            final(self).inv(),
            final(self).cap() == old(self).cap(),
            old(self).contents().len() < old(self).cap() ==> r is Ok && final(self).contents()
                == old(self).contents().push(v),
            old(self).contents().len() >= old(self).cap() ==> final(self).contents()
                == old(self).contents() && (r matches Err(x) && x == v),
    {
        if self.items.len() < self.capacity {
            self.items.push(v);
            Ok(())
        } else {
            Err(v)
        }
    }

    /// Non-blocking receive: takes the oldest element, or returns nothing
    /// when the queue is empty.
    pub fn try_recv(&mut self) -> (r: Option<T>)
        requires
            old(self).inv(),
        ensures
            final(self).inv(),
            final(self).cap() == old(self).cap(),
            old(self).contents().len() == 0 ==> r is None && final(self).contents()
                == old(self).contents(),
            old(self).contents().len() > 0 ==> r == Some(old(self).contents()[0])
                && final(self).contents() == old(self).contents().skip(1),
    {
        if self.items.len() > 0 {
            let v = self.items.remove(0);
            proof {
                assert(old(self).items@.remove(0) =~= old(self).items@.skip(1));
            }
            Some(v)
        } else {
            None
        }
    }
}

/// FIFO law: sends append at the back and receives take the front, so two
/// jobs sent in order come out in that order. With a backlog `c` ahead of
/// them, once the backlog has drained the receiver sees exactly `j1`,
/// then `j2`.
pub proof fn lemma_fifo_order<T>(c: Seq<T>, j1: T, j2: T)
    ensures
        c.push(j1).push(j2).skip(c.len() as int) == seq![j1, j2],
        c.push(j1).push(j2).skip(c.len() as int)[0] == j1,
        c.push(j1).push(j2).skip(c.len() as int).skip(1)[0] == j2,
{
    assert(c.push(j1).push(j2).skip(c.len() as int) =~= seq![j1, j2]);
}

} // verus!
