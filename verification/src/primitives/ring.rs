//! Fixed-capacity ring buffer: the sliding window behind every running sum.

use vstd::prelude::*;
use crate::types::{invalid_parameter, IndicatorResult};

verus! {

/// The window after `value` arrives: it grows until it holds `capacity` items, then
/// the oldest item leaves for each one that enters.
pub open spec fn window_push<T>(window: Seq<T>, capacity: nat, value: T) -> Seq<T> {
    if window.len() < capacity {
        window.push(value)
    } else {
        window.drop_first().push(value)
    }
}

/// The last `capacity` items of `items` (all of them while there are fewer).
pub open spec fn window_of<T>(items: Seq<T>, capacity: nat) -> Seq<T> {
    if items.len() <= capacity {
        items
    } else {
        items.subrange(items.len() - capacity, items.len() as int)
    }
}

/// The item that leaves a window of `capacity` when one more arrives, if any.
pub open spec fn window_evicted<T>(window: Seq<T>, capacity: nat) -> Option<T> {
    if window.len() < capacity {
        None
    } else {
        Some(window[0])
    }
}

/// Pushing onto the window of a history gives the window of the longer history.
pub proof fn lemma_window_push_tracks_history<T>(items: Seq<T>, capacity: nat, value: T)
    requires
        capacity >= 1,
    ensures
        window_push(window_of(items, capacity), capacity, value) == window_of(
            items.push(value),
            capacity,
        ),
{
    let w = window_of(items, capacity);
    let lhs = window_push(w, capacity, value);
    let rhs = window_of(items.push(value), capacity);
    assert(lhs =~= rhs);
}

/// A window is full exactly when the history is at least as long as the capacity:
/// a stage over a window of `capacity` has a warm-up of `capacity - 1` inputs.
pub proof fn lemma_window_len<T>(items: Seq<T>, capacity: nat)
    ensures
        window_of(items, capacity).len() == vstd::math::min(items.len() as int, capacity as int),
        window_of(items, capacity).len() == capacity <==> items.len() >= capacity,
{
}

/// A ring buffer of at most `capacity` items with a head index. Its view is the
/// window it holds, oldest item first.
#[derive(Debug)]
pub struct RingBuffer<T> {
    slots: Vec<T>,
    /// Slot of the oldest item once the buffer is full; 0 while it fills.
    head: usize,
    capacity: usize,
}

impl<T> View for RingBuffer<T> {
    type V = Seq<T>;

    closed spec fn view(&self) -> Seq<T> {
        self.slots@.subrange(self.head as int, self.slots@.len() as int) + self.slots@.subrange(
            0,
            self.head as int,
        )
    }
}

impl<T> RingBuffer<T> {
    #[verifier::type_invariant]
    spec fn inv(self) -> bool {
        &&& self.capacity >= 1
        &&& self.slots@.len() <= self.capacity
        &&& self.head <= self.slots@.len()
        &&& self.head < self.capacity
        &&& self.slots@.len() < self.capacity ==> self.head == 0
    }

    /// The largest number of items the buffer holds.
    pub closed spec fn spec_capacity(&self) -> usize {
        self.capacity
    }

    /// The largest number of items the buffer holds.
    #[verifier::when_used_as_spec(spec_capacity)]
    pub fn capacity(&self) -> (c: usize)
        ensures
            c == self.spec_capacity(),
            c >= 1,
            self@.len() <= c,
    {
        proof {
            use_type_invariant(self);
        }
        self.capacity
    }
}

impl<T: Copy> RingBuffer<T> {

    /// An empty buffer of a capacity already known to be positive.
    pub(crate) fn sized(capacity: usize) -> (ring: Self)
        requires
            capacity >= 1,
        ensures
            ring.spec_capacity() == capacity,
            ring@ == Seq::<T>::empty(),
    {
        let ring = RingBuffer { slots: Vec::new(), head: 0, capacity };
        assert(ring@ =~= Seq::<T>::empty());
        ring
    }

    /// An empty buffer. A zero capacity is rejected.
    pub fn new(capacity: usize) -> (r: IndicatorResult<Self>)
        ensures
            capacity > 0 ==> r is Ok && r->Ok_0.spec_capacity() == capacity && r->Ok_0@
                == Seq::<T>::empty(),
            capacity == 0 ==> r is Err && r->Err_0.is_invalid(
                "capacity must be greater than 0"@,
            ),
    {
        if capacity == 0 {
            return Err(invalid_parameter("capacity must be greater than 0"));
        }
        Ok(Self::sized(capacity))
    }

    /// Number of items held.
    pub fn len(&self) -> (n: usize)
        ensures
            n == self@.len(),
            n <= self.spec_capacity(),
    {
        proof {
            use_type_invariant(self);
        }
        self.slots.len()
    }

    /// True while nothing has been pushed.
    pub fn is_empty(&self) -> (b: bool)
        ensures
            b == (self@.len() == 0),
    {
        proof {
            use_type_invariant(self);
        }
        self.slots.len() == 0
    }

    /// True once `capacity` items are held.
    pub fn is_full(&self) -> (b: bool)
        ensures
            b == (self@.len() == self.spec_capacity()),
    {
        proof {
            use_type_invariant(self);
        }
        self.slots.len() == self.capacity
    }

    /// Appends `value`; once the buffer is full the oldest item leaves and is
    /// returned.
    pub fn push(&mut self, value: T) -> (evicted: Option<T>)
        ensures
            final(self).spec_capacity() == old(self).spec_capacity(),
            final(self)@ == window_push(old(self)@, old(self).spec_capacity() as nat, value),
            evicted == window_evicted(old(self)@, old(self).spec_capacity() as nat),
    {
        proof {
            use_type_invariant(&*self);
        }
        if self.slots.len() < self.capacity {
            let mut slots = Vec::new();
            core::mem::swap(&mut slots, &mut self.slots);
            slots.push(value);
            *self = RingBuffer { slots, head: 0, capacity: self.capacity };
            assert(self@ =~= old(self)@.push(value));
            None
        } else {
            let head = self.head;
            let oldest = self.slots[head];
            let next_head = if head + 1 == self.capacity {
                0
            } else {
                head + 1
            };
            self.head = 0;
            let mut slots = Vec::new();
            core::mem::swap(&mut slots, &mut self.slots);
            slots.set(head, value);
            *self = RingBuffer { slots, head: next_head, capacity: self.capacity };
            assert(self@ =~= old(self)@.drop_first().push(value));
            Some(oldest)
        }
    }

    /// The `i`-th item of the window, counted from the oldest; `None` beyond the
    /// newest.
    pub fn get(&self, i: usize) -> (item: Option<T>)
        ensures
            item == (if i < self@.len() {
                Some(self@[i as int])
            } else {
                None
            }),
    {
        if i < self.len() {
            Some(self.at(i))
        } else {
            None
        }
    }

    /// The `i`-th item of the window, counted from the oldest.
    fn at(&self, i: usize) -> (item: T)
        requires
            i < self@.len(),
        ensures
            item == self@[i as int],
    {
        proof {
            use_type_invariant(self);
        }
        let tail = self.slots.len() - self.head;
        if i < tail {
            self.slots[self.head + i]
        } else {
            self.slots[i - tail]
        }
    }

    /// The item that would leave on the next push, if the buffer is full.
    pub fn oldest(&self) -> (item: Option<T>)
        ensures
            item == (if self@.len() == 0 {
                None
            } else {
                Some(self@[0])
            }),
    {
        proof {
            use_type_invariant(self);
        }
        if self.slots.len() == 0 {
            None
        } else {
            Some(self.at(0))
        }
    }

    /// The most recently pushed item.
    pub fn newest(&self) -> (item: Option<T>)
        ensures
            item == (if self@.len() == 0 {
                None
            } else {
                Some(self@.last())
            }),
    {
        proof {
            use_type_invariant(self);
        }
        let n = self.slots.len();
        if n == 0 {
            None
        } else {
            Some(self.at(n - 1))
        }
    }

    /// The window as a vector, oldest item first.
    pub fn to_vec(&self) -> (items: Vec<T>)
        ensures
            items@ == self@,
    {
        let n = self.len();
        let mut items: Vec<T> = Vec::new();
        let mut i: usize = 0;
        while i < n
            invariant
                n == self@.len(),
                i <= n,
                items@ == self@.subrange(0, i as int),
            decreases n - i,
        {
            let item = self.at(i);
            items.push(item);
            assert(items@ =~= self@.subrange(0, i + 1));
            i += 1;
        }
        assert(items@ =~= self@);
        items
    }

    /// Pushes every item of `data` in order and returns what left the window at each
    /// push.
    pub fn extend(&mut self, data: &[T]) -> (evicted: Vec<Option<T>>)
        ensures
            final(self).spec_capacity() == old(self).spec_capacity(),
            final(self)@ == window_of(old(self)@ + data@, old(self).spec_capacity() as nat),
            evicted@.len() == data@.len(),
            forall|i: int|
                0 <= i < data@.len() ==> #[trigger] evicted@[i] == window_evicted(
                    window_of(old(self)@ + data@.subrange(0, i), old(self).spec_capacity() as nat),
                    old(self).spec_capacity() as nat,
                ),
    {
        let ghost cap = self.spec_capacity() as nat;
        let ghost start = self@;
        let mut evicted: Vec<Option<T>> = Vec::new();
        let mut i: usize = 0;
        proof {
            use_type_invariant(&*self);
            assert(start + data@.subrange(0, 0) =~= start);
        }
        while i < data.len()
            invariant
                cap >= 1,
                start.len() <= cap,
                self.spec_capacity() as nat == cap,
                i <= data@.len(),
                self@ == window_of(start + data@.subrange(0, i as int), cap),
                evicted@.len() == i,
                forall|j: int|
                    0 <= j < i ==> #[trigger] evicted@[j] == window_evicted(
                        window_of(start + data@.subrange(0, j), cap),
                        cap,
                    ),
            decreases data@.len() - i,
        {
            let gone = self.push(data[i]);
            proof {
                let prefix = start + data@.subrange(0, i as int);
                lemma_window_push_tracks_history(prefix, cap, data@[i as int]);
                assert(prefix.push(data@[i as int]) =~= start + data@.subrange(0, i + 1));
            }
            evicted.push(gone);
            i += 1;
        }
        assert(data@.subrange(0, data@.len() as int) =~= data@);
        evicted
    }

    /// Empties the buffer.
    pub fn clear(&mut self)
        ensures
            final(self).spec_capacity() == old(self).spec_capacity(),
            final(self)@ == Seq::<T>::empty(),
    {
        proof {
            use_type_invariant(&*self);
        }
        *self = RingBuffer { slots: Vec::new(), head: 0, capacity: self.capacity };
        assert(self@ =~= Seq::<T>::empty());
    }
}

impl<T: Copy> Clone for RingBuffer<T> {
    /// A buffer with the same capacity holding the same window.
    fn clone(&self) -> (copy: Self)
        ensures
            copy@ == self@,
            copy.spec_capacity() == self.spec_capacity(),
    {
        proof {
            use_type_invariant(self);
        }
        let slots = self.to_vec();
        let copy = RingBuffer { slots, head: 0, capacity: self.capacity };
        assert(copy@ =~= self@);
        copy
    }
}

} // verus!
