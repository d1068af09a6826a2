//! Two-stage warm-up schedule of the directional movement index, and the
//! rule that keeps only the dominant directional move of a bar.

use vstd::prelude::*;

verus! {

/// Which directional move of a bar survives the exclusivity rule.
#[derive(Clone, Copy, Debug, PartialEq, Eq, Structural)]
pub enum Movement {
    /// The upward move is the larger: the downward one is zeroed.
    Up,
    /// The downward move is the larger: the upward one is zeroed.
    Down,
    /// Neither exceeds the other: both are zeroed.
    Neither,
}

/// The surviving move, given whether the upward move exceeds the downward
/// one and whether the downward exceeds the upward.
pub open spec fn dominant_of(up_exceeds: bool, down_exceeds: bool) -> Movement {
    if up_exceeds {
        Movement::Up
    } else if down_exceeds {
        Movement::Down
    } else {
        Movement::Neither
    }
}

/// Applies the exclusivity rule to the two comparisons of a bar's moves.
pub fn dominant(up_exceeds: bool, down_exceeds: bool) -> (m: Movement)
    ensures
        m == dominant_of(up_exceeds, down_exceeds),
{
    if up_exceeds {
        Movement::Up
    } else if down_exceeds {
        Movement::Down
    } else {
        Movement::Neither
    }
}

/// What one bar contributes, by its position in the stream.
#[derive(Clone, Copy, Debug, PartialEq, Eq, Structural)]
pub struct DmiStep {
    /// Feed true range and directional moves into the first-stage averages.
    pub feed_raw: bool,
    /// Feed the directional indicators and their index into the second stage.
    pub feed_index: bool,
}

/// The step taken on the bar that arrives after `seen` earlier bars.
pub open spec fn dmi_step(seen: nat, period: nat) -> DmiStep {
    DmiStep { feed_raw: seen > 0, feed_index: seen > period + 1 }
}

/// Whether a value is reported once `seen` bars have been processed.
pub open spec fn dmi_ready(seen: nat, period: nat) -> bool {
    seen >= 2 * period + 1
}

/// How many samples the first-stage averages have received after `seen` bars.
pub open spec fn raw_fed(seen: nat, period: nat) -> nat
    decreases seen,
{
    if seen == 0 {
        0
    } else if dmi_step((seen - 1) as nat, period).feed_raw {
        raw_fed((seen - 1) as nat, period) + 1
    } else {
        raw_fed((seen - 1) as nat, period)
    }
}

/// How many samples the second-stage averages have received after `seen` bars.
pub open spec fn index_fed(seen: nat, period: nat) -> nat
    decreases seen,
{
    if seen == 0 {
        0
    } else if dmi_step((seen - 1) as nat, period).feed_index {
        index_fed((seen - 1) as nat, period) + 1
    } else {
        index_fed((seen - 1) as nat, period)
    }
}

/// The first stage misses only the first bar; the second stage misses the
/// first `period + 2` bars.
pub proof fn lemma_samples_fed(seen: nat, period: nat)
    ensures
        raw_fed(seen, period) == (if seen >= 1 {
            seen - 1
        } else {
            0
        }),
        index_fed(seen, period) == (if seen >= period + 2 {
            seen - period - 2
        } else {
            0
        }),
    decreases seen,
{
    if seen > 0 {
        lemma_samples_fed((seen - 1) as nat, period);
    }
}

/// Whenever the second stage is fed, the first-stage averages it reads are
/// warm. The second-stage averages become warm at `2 * period + 2` bars: on
/// the first bar at which a value is reported they are still one sample short.
pub proof fn lemma_stage_warmth(seen: nat, period: nat)
    ensures
        dmi_step(seen, period).feed_index ==> raw_fed(seen + 1, period) >= period,
        index_fed(seen, period) >= period <==> period == 0 || seen >= 2 * period + 2,
        period > 0 && seen == 2 * period + 1 ==> dmi_ready(seen, period) && index_fed(
            seen,
            period,
        ) == period - 1,
{
    lemma_samples_fed(seen, period);
    lemma_samples_fed(seen + 1, period);
}

/// Counts the bars of one index and tells each its step.
#[derive(Debug)]
pub struct DmiCounter {
    period: usize,
    len: usize,
}

impl DmiCounter {
    /// The period fixed at construction.
    pub closed spec fn period(&self) -> nat {
        self.period as nat
    }

    /// The number of bars counted so far.
    pub closed spec fn seen(&self) -> nat {
        self.len as nat
    }

    /// A counter that has seen nothing.
    pub fn new(period: usize) -> (c: Self)
        ensures
            c.period() == period,
            c.seen() == 0,
    {
        DmiCounter { period, len: 0 }
    }

    /// Counts one more bar and says which stages it feeds.
    pub fn tick(&mut self) -> (step: DmiStep)
        requires
            old(self).seen() < usize::MAX,
        ensures
            final(self).period() == old(self).period(),
            final(self).seen() == old(self).seen() + 1,
            step == dmi_step(old(self).seen(), old(self).period()),
    {
        let feed_raw = self.len > 0;
        let feed_index = self.len >= 2 && self.len - 2 >= self.period;
        self.len += 1;
        DmiStep { feed_raw, feed_index }
    }

    /// The number of bars counted so far.
    pub fn len(&self) -> (r: usize)
        ensures
            r == self.seen(),
    {
        self.len
    }

    /// The period fixed at construction.
    pub fn width(&self) -> (r: usize)
        ensures
            r == self.period(),
    {
        self.period
    }

    /// Whether a value is reported: `2 * period + 1` bars have been counted.
    pub fn is_ready(&self) -> (r: bool)
        ensures
            r == dmi_ready(self.seen(), self.period()),
    {
        self.len > self.period && self.len - self.period > self.period
    }
}

} // verus!
