//! Bounded FIFO model of a kernel ring buffer.
//!
//! The kernel primitive offers per-record reserve/submit on the producer
//! side and in-order consumption on the user side; a full buffer refuses the
//! reservation and the producer drops the record. This model keeps exactly
//! that interface: submission succeeds precisely while there is room, and
//! records come out in submission order.

use vstd::prelude::*;

verus! {

/// A bounded single-queue ring: records in submission order, oldest first.
pub struct RingBuffer<T> {
    entries: Vec<T>,
    capacity: usize,
}

impl<T> View for RingBuffer<T> {
    type V = Seq<T>;

    closed spec fn view(&self) -> Seq<T> {
        self.entries@
    }
}

impl<T> RingBuffer<T> {
    /// Number of records the ring can hold at once.
    pub closed spec fn spec_capacity(&self) -> nat {
        self.capacity as nat
    }

    /// Internal shape: never more records than the capacity admits.
    pub closed spec fn wf(&self) -> bool {
        self.entries@.len() <= self.capacity
    }

    /// An empty ring that can hold `capacity` records.
    pub fn new(capacity: usize) -> (r: RingBuffer<T>)
        ensures
            r.wf(),
            r@ == Seq::<T>::empty(),
            r.spec_capacity() == capacity,
    {
        let r = RingBuffer { entries: Vec::new(), capacity };
        proof {
            assert(r@ =~= Seq::<T>::empty());
        }
        r
    }

    /// Number of records currently queued.
    pub fn len(&self) -> (n: usize)
        ensures
            n == self@.len(),
    {
        self.entries.len()
    }

    /// Reserve, write and submit one record. Succeeds exactly while the ring
    /// has room; a refused reservation leaves the ring unchanged and the
    /// caller accounts the drop.
    pub fn try_submit(&mut self, value: T) -> (ok: bool)
        requires
            old(self).wf(),
        ensures
            final(self).wf(),
            final(self).spec_capacity() == old(self).spec_capacity(),
            ok <==> old(self)@.len() < old(self).spec_capacity(),
            ok ==> final(self)@ == old(self)@.push(value),
            !ok ==> final(self)@ == old(self)@,
    {
        if self.entries.len() < self.capacity {
            self.entries.push(value);
            true
        } else {
            false
        }
    }

    /// Consume the oldest queued record, if any.
    pub fn pop_next(&mut self) -> (r: Option<T>)
        requires
            old(self).wf(),
        ensures
            final(self).wf(),
            final(self).spec_capacity() == old(self).spec_capacity(),
            old(self)@.len() == 0 ==> r is None && final(self)@ == old(self)@,
            old(self)@.len() > 0 ==> r == Some(old(self)@[0]) && final(self)@ == old(
                self,
            )@.subrange(1, old(self)@.len() as int),
    {
        if self.entries.len() == 0 {
            None
        } else {
            let v = self.entries.remove(0);
            proof {
                assert(self.entries@ =~= old(self).entries@.subrange(
                    1,
                    old(self).entries@.len() as int,
                ));
            }
            Some(v)
        }
    }
}

} // verus!
