//! Warm-up schedule of the periods-based exponential moving average.

use vstd::prelude::*;

verus! {

/// What the average does with a sample, by its position in the stream.
#[derive(Clone, Copy, Debug, PartialEq, Eq, Structural)]
pub enum EmaStep {
    /// Add the sample to the running sum.
    Accumulate,
    /// Add the sample, then divide the sum by the period: the seed average.
    Seed,
    /// Blend the sample into the previous average by the smoothing factor.
    Smooth,
}

/// The step taken on the sample that brings the count to `seen`.
pub open spec fn ema_step(seen: nat, periods: nat) -> EmaStep {
    if seen < periods {
        EmaStep::Accumulate
    } else if seen == periods {
        EmaStep::Seed
    } else {
        EmaStep::Smooth
    }
}

/// Counts the samples of one average and tells each its step.
#[derive(Debug)]
pub struct EmaCounter {
    periods: usize,
    len: usize,
}

impl EmaCounter {
    /// The period fixed at construction.
    pub closed spec fn periods(&self) -> nat {
        self.periods as nat
    }

    /// The number of samples counted so far.
    pub closed spec fn seen(&self) -> nat {
        self.len as nat
    }

    /// Whether the average is defined: `periods` samples have been counted.
    pub open spec fn ready(&self) -> bool {
        self.seen() >= self.periods()
    }

    /// A counter that has seen nothing.
    pub fn new(periods: usize) -> (c: Self)
        ensures
            c.periods() == periods,
            c.seen() == 0,
    {
        EmaCounter { periods, len: 0 }
    }

    /// Counts one more sample and says what to do with it. The average is
    /// ready from the seeding sample on, and never before.
    pub fn tick(&mut self) -> (step: EmaStep)
        requires
            old(self).seen() < usize::MAX,
        ensures
            final(self).periods() == old(self).periods(),
            final(self).seen() == old(self).seen() + 1,
            step == ema_step(final(self).seen(), final(self).periods()),
            final(self).ready() <==> step != EmaStep::Accumulate,
    {
        self.len += 1;
        if self.len < self.periods {
            EmaStep::Accumulate
        } else if self.len == self.periods {
            EmaStep::Seed
        } else {
            EmaStep::Smooth
        }
    }

    /// The number of samples counted so far.
    pub fn len(&self) -> (r: usize)
        ensures
            r == self.seen(),
    {
        self.len
    }

    /// The period fixed at construction.
    pub fn width(&self) -> (r: usize)
        ensures
            r == self.periods(),
    {
        self.periods
    }

    /// Whether the average is defined yet.
    pub fn is_ready(&self) -> (r: bool)
        ensures
            r == self.ready(),
    {
        self.len >= self.periods
    }
}

} // verus!
