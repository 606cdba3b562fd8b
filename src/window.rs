//! A fixed-capacity circular buffer of recent values for one metric.
use vstd::prelude::*;

verus! {

/// Holds the last `capacity` values pushed, starting out filled with one value.
/// Each push overwrites the oldest slot.
pub struct CircularBuffer<T> {
    buffer: Vec<T>,
    index: usize,
    capacity: usize,
}

impl<T: Copy> CircularBuffer<T> {
    /// The slots as stored, in storage order.
    pub closed spec fn slots(&self) -> Seq<T> {
        self.buffer@
    }

    /// The storage slot that the next push overwrites.
    pub closed spec fn next_slot(&self) -> int {
        self.index as int
    }

    pub closed spec fn spec_capacity(&self) -> nat {
        self.capacity as nat
    }

    pub closed spec fn wf(&self) -> bool {
        &&& self.buffer@.len() == self.capacity
        &&& self.capacity > 0
        &&& self.index < self.capacity
    }

    /// The contents from the oldest value to the newest.
    pub open spec fn window(&self) -> Seq<T> {
        self.slots().subrange(self.next_slot(), self.slots().len() as int) + self.slots().subrange(
            0,
            self.next_slot(),
        )
    }

    /// A buffer of `capacity` slots, each holding `fill`.
    pub fn new(capacity: usize, fill: T) -> (r: Self)
        requires
            capacity > 0,
        ensures
            r.wf(),
            r.spec_capacity() == capacity,
            r.slots() == Seq::new(capacity as nat, |i: int| fill),
            r.window() == Seq::new(capacity as nat, |i: int| fill),
    {
        let mut buffer: Vec<T> = Vec::new();
        let mut i: usize = 0;
        while i < capacity
            invariant
                i <= capacity,
                buffer@ == Seq::new(i as nat, |j: int| fill),
            decreases capacity - i,
        {
            buffer.push(fill);
            i = i + 1;
        }
        let r = CircularBuffer { buffer, index: 0, capacity };
        assert(r.window() == r.slots());
        r
    }

    /// Overwrites the oldest value with `value`, which becomes the newest.
    pub fn push(&mut self, value: T)
        requires
            old(self).wf(),
        ensures
            final(self).wf(),
            final(self).spec_capacity() == old(self).spec_capacity(),
            final(self).slots() == old(self).slots().update(old(self).next_slot(), value),
            final(self).window() == old(self).window().drop_first().push(value),
    {
        let ghost w = self.window();
        let ghost k = self.index as int;
        let ghost old_slots = self.buffer@;
        self.buffer.set(self.index, value);
        self.index = if self.index + 1 == self.capacity {
            0
        } else {
            self.index + 1
        };
        proof {
            let n = old_slots.len() as int;
            let s = self.buffer@;
            let expected = w.drop_first().push(value);
            assert(self.window().len() == expected.len());
            assert forall|j: int| 0 <= j < expected.len() implies self.window()[j]
                == expected[j] by {
                if k + 1 < n {
                    if j < n - k - 1 {
                        assert(self.window()[j] == s[k + 1 + j]);
                        assert(expected[j] == w[j + 1]);
                    } else {
                        assert(self.window()[j] == s[j - (n - k - 1)]);
                    }
                } else {
                    assert(self.window()[j] == s[j]);
                }
            }
            assert(self.window() == expected);
        }
    }

    /// The slots in storage order (not oldest first).
    pub fn values(&self) -> (r: &[T])
        ensures
            r@ == self.slots(),
    {
        self.buffer.as_slice()
    }

    /// The number of slots.
    pub fn capacity(&self) -> (r: usize)
        ensures
            r == self.spec_capacity(),
    {
        self.capacity
    }
}

} // verus!
