//! The computational core of the timing harness: fresh-buffer allocation
//! and the accumulator that turns per-trial elapsed times into a mean
//! latency. Reading the clock, and the floating-point ratio of two means,
//! stay with the caller; everything it feeds in or reads back is exact
//! integer arithmetic, proved here.

use vstd::prelude::*;

verus! {

/// Allocate a fresh trial buffer: `len` integers, every one `fill`.
pub fn make_buffer(len: usize, fill: usize) -> (r: Vec<usize>)
    ensures
        r@.len() == len,
        forall|i: int| 0 <= i < len ==> #[trigger] r@[i] == fill,
{
    let mut r: Vec<usize> = Vec::new();
    let mut j: usize = 0;
    while j < len
        invariant
            j <= len,
            r@.len() == j,
            forall|i: int| 0 <= i < j ==> #[trigger] r@[i] == fill,
        decreases len - j,
    {
        r.push(fill);
        j += 1;
    }
    r
}

/// Accumulates the elapsed wall-clock time of repeated timed trials and
/// reports the arithmetic mean latency per trial.
#[derive(PartialEq, Eq, Structural, Clone, Copy, Debug)]
pub struct BenchStats {
    /// How many trials have been recorded.
    pub trials: u64,
    /// Total elapsed time over all recorded trials, in nanoseconds.
    pub total_ns: u128,
}

impl BenchStats {
    /// An accumulator with no trials recorded yet.
    pub fn new() -> (r: Self)
        ensures
            r.trials == 0,
            r.total_ns == 0,
    {
        BenchStats { trials: 0, total_ns: 0 }
    }

    /// Record one trial that took `ns` nanoseconds.
    pub fn record(&mut self, ns: u128)
        requires
            old(self).trials < u64::MAX,
            old(self).total_ns + ns <= u128::MAX,
        ensures
            final(self).trials == old(self).trials + 1,
            final(self).total_ns == old(self).total_ns + ns,
    {
        self.trials = self.trials + 1;
        self.total_ns = self.total_ns + ns;
    }

    /// The mean latency per recorded trial, in nanoseconds, truncated.
    pub fn mean_ns(&self) -> (r: u128)
        requires
            self.trials > 0,
        ensures
            r == self.total_ns as int / self.trials as int,
    {
        self.total_ns / (self.trials as u128)
    }
}

/// The mean latency of a run whose every trial took measurable time is
/// strictly positive: with `trials` trials each contributing at least one
/// nanosecond, the truncated mean is at least one nanosecond.
pub proof fn lemma_mean_positive(s: BenchStats)
    requires
        s.trials > 0,
        s.total_ns >= s.trials,
    ensures
        s.total_ns as int / s.trials as int >= 1,
{
    vstd::arithmetic::div_mod::lemma_div_is_ordered(
        s.trials as int,
        s.total_ns as int,
        s.trials as int,
    );
    vstd::arithmetic::div_mod::lemma_div_by_self(s.trials as int);
}

} // verus!
