//! A ring buffer: a fixed number of slots that new values fill in turn,
//! overwriting the oldest once all are used.

use vstd::prelude::*;

verus! {

/// A ring buffer of `SIZE` values, kept inline.
pub struct RingBuffer<T, const SIZE: usize> {
    pub data: [T; SIZE],
    /// The slot the next value goes to.
    pub index: usize,
    /// Whether every slot has been written since the last reset.
    pub filled: bool,
}

impl<T, const SIZE: usize> RingBuffer<T, SIZE> {
    /// The next slot is a slot.
    pub open spec fn wf(&self) -> bool {
        self.index < SIZE
    }

    /// The values actually set: all slots once filled, else those before
    /// the next slot.
    pub open spec fn spec_values(&self) -> Seq<T> {
        if self.filled {
            self.data@
        } else {
            self.data@.take(self.index as int)
        }
    }
}

impl<T: Default + Copy, const SIZE: usize> RingBuffer<T, SIZE> {
    /// A buffer with every slot holding `T::default()` and none set.
    pub fn new() -> (r: Self)
        ensures
            r.index == 0,
            !r.filled,
            SIZE > 0 ==> r.wf(),
            forall|i: int| 0 <= i < SIZE ==> #[trigger] r.data@[i] == r.data@[0],
    {
        let d = T::default();
        RingBuffer { data: [d; SIZE], index: 0, filled: false }
    }
}

impl<T, const SIZE: usize> RingBuffer<T, SIZE> {
    /// Writes `val` to the next slot and moves on, wrapping to the first.
    pub fn push(&mut self, val: T)
        requires
            old(self).wf(),
        ensures
            final(self).wf(),
            final(self).data@ == old(self).data@.update(old(self).index as int, val),
            final(self).index == (old(self).index + 1) % (SIZE as int),
            final(self).filled == (old(self).filled || old(self).index + 1 == SIZE),
    {
        self.data[self.index] = val;
        let idx = self.index + 1;
        self.index = idx % SIZE;
        if !self.filled && idx == SIZE {
            self.filled = true;
        }
    }

    /// Forgets every value set; the slots keep their contents.
    pub fn reset(&mut self)
        ensures
            final(self).data@ == old(self).data@,
            final(self).index == 0,
            !final(self).filled,
    {
        self.index = 0;
        self.filled = false;
    }

    /// The values actually set.
    pub fn values(&self) -> (r: &[T])
        requires
            self.wf(),
        ensures
            r@ == self.spec_values(),
    {
        if self.filled {
            return self.data.as_slice();
        }
        let all = self.data.as_slice();
        &all[0..self.index]
    }
}

} // verus!
