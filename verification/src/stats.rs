//! Running latency statistics for one monitored host.
//!
//! A `LatencyStats` accumulates round-trip samples, in whole milliseconds,
//! and keeps the sample count, the cumulative latency and (through
//! [`LatencyStats::average_centi`]) the running average. The full sample
//! history is carried as ghost state, so the contracts can say that the
//! running figures always match a batch recomputation over every sample
//! fed so far.

use vstd::prelude::*;

verus! {

/// Sum of a sequence of latency samples, in milliseconds.
pub open spec fn sum_of(s: Seq<u64>) -> int
    decreases s.len(),
{
    if s.len() == 0 {
        0
    } else {
        sum_of(s.drop_last()) + s.last()
    }
}

/// A sum of `u64` samples is bounded by the number of samples times the
/// largest sample value, and is never negative.
pub proof fn lemma_sum_of_bounds(s: Seq<u64>)
    ensures
        0 <= sum_of(s) <= s.len() * (u64::MAX as int),
    decreases s.len(),
{
    if s.len() > 0 {
        lemma_sum_of_bounds(s.drop_last());
    }
}

/// The running average in hundredths of a millisecond: the quotient
/// `100 * total / count`, rounded to the nearest whole number of
/// hundredths, halves rounded up.
pub open spec fn centi_average(total: int, count: int) -> int
    recommends
        count > 0,
{
    (200 * total + count) / (2 * count)
}

/// Per-host running statistics: sample count, cumulative latency, and the
/// sample history as ghost state.
pub struct LatencyStats {
    total_latency: u128,
    samples: u32,
    history: Ghost<Seq<u64>>,
}

impl LatencyStats {
    /// The cumulative latency over all samples fed so far, in milliseconds.
    pub closed spec fn total(self) -> int {
        self.total_latency as int
    }

    /// How many samples have been fed so far.
    pub closed spec fn count(self) -> int {
        self.samples as int
    }

    /// Every sample fed so far, oldest first (ghost).
    pub closed spec fn history(self) -> Seq<u64> {
        self.history@
    }

    /// Well-formedness: the running figures match a batch recomputation
    /// over the full sample history, so the average (total over count) is
    /// the arithmetic mean of all samples fed so far.
    pub open spec fn wf(self) -> bool {
        &&& self.total() == sum_of(self.history())
        &&& self.count() == self.history().len()
    }

    /// Fresh statistics: no samples, zero cumulative latency.
    pub fn new() -> (r: Self)
        ensures
            r.wf(),
            r.count() == 0,
            r.total() == 0,
            r.history() == Seq::<u64>::empty(),
    {
        LatencyStats { total_latency: 0, samples: 0, history: Ghost(Seq::empty()) }
    }

    /// Feeds one latency sample: the count grows by exactly one and the
    /// sample's milliseconds are added to the cumulative latency.
    pub fn update(&mut self, latency_ms: u64)
        requires
            old(self).wf(),
            old(self).count() < u32::MAX,
        ensures
            final(self).wf(),
            final(self).count() == old(self).count() + 1,
            final(self).total() == old(self).total() + latency_ms,
            final(self).history() == old(self).history().push(latency_ms),
    {
        proof {
            lemma_sum_of_bounds(self.history@);
        }
        let ghost new_history = self.history@.push(latency_ms);
        let total = self.total_latency + (latency_ms as u128);
        let samples = self.samples + 1;
        proof {
            assert(new_history.drop_last() =~= self.history@);
        }
        *self = LatencyStats { total_latency: total, samples, history: Ghost(new_history) };
    }

    /// The sample count.
    pub fn sample_count(&self) -> (r: u32)
        ensures
            r == self.count(),
    {
        self.samples
    }

    /// The cumulative latency in milliseconds.
    pub fn total_latency(&self) -> (r: u128)
        ensures
            r == self.total(),
    {
        self.total_latency
    }

    /// The running average latency in hundredths of a millisecond: the
    /// arithmetic mean of all samples fed so far, rounded to the nearest
    /// hundredth of a millisecond.
    pub fn average_centi(&self) -> (r: u128)
        requires
            self.wf(),
            self.count() > 0,
        ensures
            r == centi_average(self.total(), self.count()),
    {
        proof {
            lemma_sum_of_bounds(self.history@);
            assert(self.history@.len() * (u64::MAX as int) <= (u32::MAX as int) * (
            u64::MAX as int));
        }
        (200 * self.total_latency + (self.samples as u128)) / (2 * (self.samples as u128))
    }
}

/// Law: the running figures of well-formed statistics match a batch
/// recomputation over the full sample history — the stored cumulative
/// latency is the sum of every sample fed so far and the stored count is
/// their number, so the running average is the arithmetic mean of the
/// whole history.
pub proof fn lemma_running_average_is_batch_mean(st: LatencyStats)
    requires
        st.wf(),
    ensures
        st.total() == sum_of(st.history()),
        st.count() == st.history().len(),
{
}

} // verus!
