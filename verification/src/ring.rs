//! A fixed-capacity circular queue: the storage under every rolling statistic.

use vstd::prelude::*;

verus! {

/// Folds an index that ran at most one lap past the end back into `0..cap`.
pub open spec fn wrap(i: int, cap: int) -> int {
    if i < cap {
        i
    } else {
        i - cap
    }
}

/// A queue over a buffer of fixed length, addressed by a read and a write
/// cursor. Its view is the sequence of live elements, oldest first.
#[derive(Debug)]
pub struct RingQueue<T> {
    buffer: Vec<T>,
    capacity: usize,
    at: Cursors,
}

/// Read cursor, write cursor and fill level; they only ever change together.
#[derive(Debug)]
struct Cursors {
    front: usize,
    rear: usize,
    size: usize,
}

impl<T> RingQueue<T> {
    #[verifier::type_invariant]
    spec fn wf(&self) -> bool {
        &&& self.buffer@.len() == self.capacity
        &&& self.at.size <= self.capacity
        &&& self.capacity == 0 ==> self.at.front == 0 && self.at.rear == 0
        &&& self.capacity > 0 ==> self.at.front < self.capacity && self.at.rear == wrap(
            self.at.front + self.at.size,
            self.capacity as int,
        )
    }
}

impl<T: Copy> RingQueue<T> {
    /// The number of elements the queue can hold.
    pub closed spec fn cap(&self) -> nat {
        self.capacity as nat
    }

    /// The slot of the oldest live element (the read cursor).
    pub closed spec fn front_slot(&self) -> nat {
        self.at.front as nat
    }

    /// The raw buffer, slot by slot, live or not.
    pub closed spec fn slots(&self) -> Seq<T> {
        self.buffer@
    }

    /// The live elements, oldest first.
    pub closed spec fn view(&self) -> Seq<T> {
        Seq::new(
            self.at.size as nat,
            |i: int| self.buffer@[wrap(self.at.front + i, self.capacity as int)],
        )
    }

    /// The slot of the `i`-th oldest element: `front + i`, wrapped.
    pub open spec fn slot_of(&self, i: int) -> int {
        wrap(self.front_slot() + i, self.cap() as int)
    }

    /// How long ago the content of slot `j` was enqueued, counted in elements
    /// from the oldest live one, if slot `j` is live.
    pub open spec fn age_of(&self, j: int) -> int {
        if j >= self.front_slot() {
            j - self.front_slot()
        } else {
            j + self.cap() - self.front_slot()
        }
    }

    /// An empty queue of the given capacity; `fill` occupies the unused slots.
    pub fn new(capacity: usize, fill: T) -> (q: Self)
        ensures
            q.cap() == capacity,
            q@ == Seq::<T>::empty(),
            q.front_slot() == 0,
            q.slots() == Seq::new(capacity as nat, |i: int| fill),
    {
        let mut buffer: Vec<T> = Vec::new();
        let mut i: usize = 0;
        while i < capacity
            invariant
                i <= capacity,
                buffer@ == Seq::new(i as nat, |k: int| fill),
            decreases capacity - i,
        {
            buffer.push(fill);
            i += 1;
            assert(buffer@ =~= Seq::new(i as nat, |k: int| fill));
        }
        let q = RingQueue { buffer, capacity, at: Cursors { front: 0, rear: 0, size: 0 } };
        assert(q@ =~= Seq::<T>::empty());
        q
    }

    /// The capacity fixed at construction.
    pub fn capacity(&self) -> (r: usize)
        ensures
            r == self.cap(),
    {
        self.capacity
    }

    /// The number of live elements, never more than the capacity.
    pub fn len(&self) -> (r: usize)
        ensures
            r == self@.len(),
            r <= self.cap(),
    {
        proof {
            use_type_invariant(self);
        }
        self.at.size
    }

    /// Whether another element would not fit.
    pub fn is_full(&self) -> (r: bool)
        ensures
            r == (self@.len() == self.cap()),
            self@.len() <= self.cap(),
    {
        proof {
            use_type_invariant(self);
        }
        self.at.size == self.capacity
    }

    /// Whether there is nothing to dequeue.
    pub fn is_empty(&self) -> (r: bool)
        ensures
            r == (self@.len() == 0),
    {
        self.at.size == 0
    }

    /// Appends `item` as the newest element, in the slot right after the
    /// newest so far. The queue must not be full.
    pub fn enqueue(&mut self, item: T)
        requires
            old(self)@.len() < old(self).cap(),
        ensures
            final(self).cap() == old(self).cap(),
            final(self).front_slot() == old(self).front_slot(),
            final(self)@ == old(self)@.push(item),
            final(self).slots() == old(self).slots().update(
                old(self).slot_of(old(self)@.len() as int),
                item,
            ),
    {
        proof {
            use_type_invariant(&*self);
        }
        let ghost before = self@;
        let rear: usize = self.at.rear;
        self.buffer[rear] = item;
        let next: usize = if rear + 1 == self.capacity {
            0
        } else {
            rear + 1
        };
        self.at = Cursors { front: self.at.front, rear: next, size: self.at.size + 1 };
        assert(self@ =~= before.push(item));
    }

    /// Removes and returns the oldest element, leaving its slot as it is.
    /// The queue must not be empty.
    pub fn dequeue(&mut self) -> (item: T)
        requires
            old(self)@.len() > 0,
        ensures
            final(self).cap() == old(self).cap(),
            final(self).front_slot() == old(self).slot_of(1),
            final(self).slots() == old(self).slots(),
            item == old(self)@[0],
            final(self)@ == old(self)@.skip(1),
    {
        proof {
            use_type_invariant(&*self);
        }
        let ghost before = self@;
        let front: usize = self.at.front;
        let item = self.buffer[front];
        let next: usize = if front + 1 == self.capacity {
            0
        } else {
            front + 1
        };
        self.at = Cursors { front: next, rear: self.at.rear, size: self.at.size - 1 };
        assert(self@ =~= before.skip(1));
        item
    }

    /// The `i`-th oldest live element.
    pub fn get(&self, i: usize) -> (r: T)
        requires
            i < self@.len(),
        ensures
            r == self@[i as int],
            r == self.slots()[self.slot_of(i as int)],
    {
        proof {
            use_type_invariant(self);
        }
        let room: usize = self.capacity - self.at.front;
        if i < room {
            self.buffer[self.at.front + i]
        } else {
            self.buffer[i - room]
        }
    }

    /// The content of buffer slot `j`. If the slot is live, that is the
    /// element of the view whose age the slot's distance from the read
    /// cursor gives; in a full queue every slot is live.
    pub fn slot(&self, j: usize) -> (r: T)
        requires
            j < self.cap(),
        ensures
            r == self.slots()[j as int],
            0 <= self.age_of(j as int) < self.cap(),
            self.age_of(j as int) < self@.len() ==> r == self@[self.age_of(j as int)],
    {
        proof {
            use_type_invariant(self);
        }
        self.buffer[j]
    }
}

} // verus!
