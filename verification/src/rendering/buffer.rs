//! A fixed-capacity, append-only buffer with a per-frame write cursor.
//!
//! Each GPU-visible linear buffer is sized once at startup and never grows:
//! within a frame it only appends, and at the start of a frame its write
//! cursor rewinds.  Exceeding the capacity is a configuration error, not a
//! recoverable one, and is reported as such rather than hidden.

use vstd::prelude::*;

use crate::HothamError;
use crate::HothamResult;

verus! {

/// A linear buffer with a fixed element capacity and a write cursor.
///
/// The contents below the cursor are exactly the elements appended since the
/// last rewind, in append order; an element's position is the index later
/// used to address it from GPU-visible records.
pub struct Buffer<T> {
    data: Vec<T>,
    capacity: usize,
}

impl<T> View for Buffer<T> {
    type V = Seq<T>;

    /// The elements currently below the write cursor, in append order.
    closed spec fn view(&self) -> Seq<T> {
        self.data@
    }
}

impl<T> Buffer<T> {
    /// The element capacity the buffer was provisioned with at startup.
    pub closed spec fn capacity(self) -> nat {
        self.capacity as nat
    }

    /// The buffer never holds more than it was provisioned for.
    pub open spec fn wf(self) -> bool {
        self@.len() <= self.capacity()
    }

    /// Create an empty buffer provisioned for `capacity` elements.
    pub fn new(capacity: usize) -> (buffer: Buffer<T>)
        ensures
            buffer@ == Seq::<T>::empty(),
            buffer.capacity() == capacity,
            buffer.wf(),
    {
        Buffer { data: Vec::new(), capacity }
    }

    /// The number of elements below the write cursor.
    pub fn len(&self) -> (n: usize)
        ensures
            n == self@.len(),
    {
        self.data.len()
    }

    /// Whether the buffer is full.
    pub fn is_full(&self) -> (full: bool)
        ensures
            full == (self@.len() == self.capacity()),
    {
        self.data.len() == self.capacity
    }

    /// Append one element and return the slot it landed in, or report that
    /// the buffer is already at its provisioned capacity, leaving the
    /// contents untouched.
    pub fn push(&mut self, element: T) -> (slot: HothamResult<usize>)
        requires
            old(self).wf(),
        ensures
            final(self).capacity() == old(self).capacity(),
            final(self).wf(),
            old(self)@.len() < old(self).capacity() ==> {
                &&& slot == Ok::<usize, HothamError>(old(self)@.len() as usize)
                &&& final(self)@ == old(self)@.push(element)
            },
            old(self)@.len() == old(self).capacity() ==> {
                &&& slot == Err::<usize, HothamError>(HothamError::CapacityExceeded)
                &&& final(self)@ == old(self)@
            },
    {
        if self.data.len() == self.capacity {
            Err(HothamError::CapacityExceeded)
        } else {
            let slot = self.data.len();
            self.data.push(element);
            Ok(slot)
        }
    }

    /// Rewind the write cursor: previous contents are logically discarded.
    pub fn rewind(&mut self)
        ensures
            final(self)@ == Seq::<T>::empty(),
            final(self).capacity() == old(self).capacity(),
            final(self).wf(),
    {
        self.data.clear();
    }

    /// Rewind the write cursor to just past the first `reserved` elements,
    /// which survive; everything after them is logically discarded.
    pub fn rewind_to(&mut self, reserved: usize)
        requires
            reserved <= old(self)@.len(),
        ensures
            final(self)@ == old(self)@.subrange(0, reserved as int),
            final(self).capacity() == old(self).capacity(),
            old(self).wf() ==> final(self).wf(),
    {
        self.data.truncate(reserved);
    }

    /// Read the element in `slot`.
    pub fn get(&self, slot: usize) -> (element: &T)
        requires
            slot < self@.len(),
        ensures
            *element == self@[slot as int],
    {
        &self.data[slot]
    }
}

} // verus!
