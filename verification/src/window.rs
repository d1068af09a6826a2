//! The sliding window of a moving average: the most recent samples, and
//! whether enough of them have arrived.

use crate::ring::RingQueue;
use vstd::prelude::*;

verus! {

/// The last `periods` elements of `inputs`, or all of them if there are fewer.
pub open spec fn latest<T>(inputs: Seq<T>, periods: nat) -> Seq<T> {
    if inputs.len() <= periods {
        inputs
    } else {
        inputs.subrange(inputs.len() - periods, inputs.len() as int)
    }
}

/// What a window of width `periods` holds after `inputs` were pushed into it
/// one by one, starting empty.
pub open spec fn fed<T>(inputs: Seq<T>, periods: nat) -> Seq<T>
    decreases inputs.len(),
{
    if inputs.len() == 0 {
        Seq::empty()
    } else {
        latest(fed(inputs.drop_last(), periods).push(inputs.last()), periods)
    }
}

/// A window fed sample by sample holds exactly the most recent `periods`
/// samples, in arrival order, and all of them while fewer have arrived.
pub proof fn lemma_window_holds_latest<T>(inputs: Seq<T>, periods: nat)
    ensures
        fed(inputs, periods) == latest(inputs, periods),
    decreases inputs.len(),
{
    if inputs.len() > 0 {
        let head = inputs.drop_last();
        lemma_window_holds_latest(head, periods);
        assert(inputs == head.push(inputs.last()));
        assert(latest(latest(head, periods).push(inputs.last()), periods) =~= latest(
            inputs,
            periods,
        ));
    } else {
        assert(latest(inputs, periods) =~= Seq::<T>::empty());
    }
}

/// Pushing a sample leaves a window as it was only in one case: the window
/// is warm and already holds nothing but that sample.
pub proof fn lemma_push_changes_window<T>(window: Seq<T>, value: T, periods: nat)
    requires
        window.len() <= periods,
    ensures
        latest(window.push(value), periods) == window <==> window.len() == periods && forall|
            i: int,
        |
            0 <= i < window.len() ==> window[i] == value,
{
    let after = latest(window.push(value), periods);
    if periods == 0 {
        assert(after =~= window);
    } else if window.len() == periods {
        assert(after =~= window.skip(1).push(value));
        if forall|i: int| 0 <= i < window.len() ==> window[i] == value {
            assert(after =~= window);
        }
        if after == window {
            assert forall|i: int| 0 <= i < window.len() implies window[i] == value by {
                lemma_constant_from_shift(window, value, i);
            }
        }
    } else {
        assert(after.len() == window.len() + 1);
    }
}

proof fn lemma_constant_from_shift<T>(window: Seq<T>, value: T, i: int)
    requires
        window.len() > 0,
        window.skip(1).push(value) == window,
        0 <= i < window.len(),
    ensures
        window[i] == value,
    decreases window.len() - i,
{
    let shifted = window.skip(1).push(value);
    if i == window.len() - 1 {
        assert(shifted[i] == value);
    } else {
        lemma_constant_from_shift(window, value, i + 1);
        assert(shifted[i] == window[i + 1]);
    }
}

/// The window of a moving average of fixed width. Its view is the samples it
/// currently holds, oldest first.
#[derive(Debug)]
pub struct SlidingWindow<T> {
    ring: RingQueue<T>,
}

impl<T: Copy> SlidingWindow<T> {
    /// The samples held, oldest first.
    pub closed spec fn view(&self) -> Seq<T> {
        self.ring@
    }

    /// The width of the window.
    pub closed spec fn periods(&self) -> nat {
        self.ring.cap()
    }

    /// Whether `periods` samples have been seen.
    pub open spec fn warm(&self) -> bool {
        self@.len() >= self.periods()
    }

    /// An empty window of width `periods`; `fill` occupies the unused slots.
    pub fn new(periods: usize, fill: T) -> (w: Self)
        ensures
            w.periods() == periods,
            w@ == Seq::<T>::empty(),
    {
        SlidingWindow { ring: RingQueue::new(periods, fill) }
    }

    /// Admits `value`. While the window is warming nothing leaves it; once it
    /// is warm the oldest sample makes room and is handed back.
    pub fn push(&mut self, value: T) -> (evicted: Option<T>)
        requires
            old(self).periods() > 0,
        ensures
            final(self).periods() == old(self).periods(),
            final(self)@ == latest(old(self)@.push(value), old(self).periods()),
            evicted == (if old(self).warm() {
                Some(old(self)@[0])
            } else {
                None
            }),
    {
        let ghost before = self@;
        let evicted = if self.ring.is_full() {
            Some(self.ring.dequeue())
        } else {
            None
        };
        self.ring.enqueue(value);
        assert(self@ =~= latest(before.push(value), self.periods()));
        evicted
    }

    /// The number of samples held: the samples seen, capped at the width.
    pub fn len(&self) -> (r: usize)
        ensures
            r == self@.len(),
            r <= self.periods(),
    {
        self.ring.len()
    }

    /// The width fixed at construction.
    pub fn width(&self) -> (r: usize)
        ensures
            r == self.periods(),
    {
        self.ring.capacity()
    }

    /// Whether the window has warmed up, so that its mean is defined.
    pub fn is_warm(&self) -> (r: bool)
        ensures
            r == self.warm(),
    {
        self.ring.is_full()
    }

    /// The `i`-th oldest sample held.
    pub fn get(&self, i: usize) -> (r: T)
        requires
            i < self@.len(),
        ensures
            r == self@[i as int],
    {
        self.ring.get(i)
    }
}

} // verus!
