//! The report of a run: what all workers completed, and in what time.

use vstd::prelude::*;
use crate::counters::WorkerCounters;

verus! {

/// The sum of the writes of `counters`.
pub open spec fn sum_writes(counters: Seq<WorkerCounters>) -> int
    decreases counters.len(),
{
    if counters.len() == 0 {
        0
    } else {
        sum_writes(counters.drop_last()) + counters.last().writes
    }
}

/// The sum of the reads of `counters`.
pub open spec fn sum_reads(counters: Seq<WorkerCounters>) -> int
    decreases counters.len(),
{
    if counters.len() == 0 {
        0
    } else {
        sum_reads(counters.drop_last()) + counters.last().reads
    }
}

/// The sums over a part of the counters are at most those over all of them.
pub proof fn lemma_sums_monotonic(counters: Seq<WorkerCounters>, n: int)
    requires
        0 <= n <= counters.len(),
    ensures
        0 <= sum_writes(counters.take(n)) <= sum_writes(counters),
        0 <= sum_reads(counters.take(n)) <= sum_reads(counters),
    decreases counters.len(),
{
    if n == counters.len() {
        assert(counters.take(n) =~= counters);
        if counters.len() > 0 {
            lemma_sums_monotonic(counters.drop_last(), n - 1);
            assert(counters.drop_last().take(n - 1) =~= counters.drop_last());
        }
    } else {
        lemma_sums_monotonic(counters.drop_last(), n);
        assert(counters.drop_last().take(n) =~= counters.take(n));
    }
}

/// What a run achieved: the totals over all workers that terminated, and the
/// seconds measured from the start of the workers to the last join.
#[derive(Clone, Copy, Debug, PartialEq, Eq, Structural)]
pub struct ThroughputReport {
    pub total_writes: u64,
    pub total_reads: u64,
    pub elapsed_seconds: u64,
}

impl ThroughputReport {
    /// The whole operations per second for `total` operations, where any
    /// time was measured.
    pub open spec fn spec_rate(total: u64, elapsed_seconds: u64) -> Option<u64> {
        if elapsed_seconds == 0 {
            None
        } else {
            Some((total / elapsed_seconds) as u64)
        }
    }

    /// The report of a run with these totals and this measured time.
    pub fn new(totals: WorkerCounters, elapsed_seconds: u64) -> (report: ThroughputReport)
        ensures
            report.total_writes == totals.writes,
            report.total_reads == totals.reads,
            report.elapsed_seconds == elapsed_seconds,
    {
        ThroughputReport {
            total_writes: totals.writes,
            total_reads: totals.reads,
            elapsed_seconds,
        }
    }

    /// Whole writes per second over the measured time; `None` where less
    /// than a second was measured.
    pub fn writes_per_second(&self) -> (rate: Option<u64>)
        ensures
            rate == Self::spec_rate(self.total_writes, self.elapsed_seconds),
            rate matches Some(r) ==> r * self.elapsed_seconds <= self.total_writes < (r + 1)
                * self.elapsed_seconds,
    {
        Self::rate(self.total_writes, self.elapsed_seconds)
    }

    /// Whole reads per second over the measured time; `None` where less than
    /// a second was measured.
    pub fn reads_per_second(&self) -> (rate: Option<u64>)
        ensures
            rate == Self::spec_rate(self.total_reads, self.elapsed_seconds),
            rate matches Some(r) ==> r * self.elapsed_seconds <= self.total_reads < (r + 1)
                * self.elapsed_seconds,
    {
        Self::rate(self.total_reads, self.elapsed_seconds)
    }

    /// Whole operations per second for `total` operations in `elapsed_seconds`.
    fn rate(total: u64, elapsed_seconds: u64) -> (rate: Option<u64>)
        ensures
            rate == Self::spec_rate(total, elapsed_seconds),
            rate matches Some(r) ==> r * elapsed_seconds <= total < (r + 1) * elapsed_seconds,
    {
        if elapsed_seconds == 0 {
            None
        } else {
            let r: u64 = total / elapsed_seconds;
            proof {
                vstd::arithmetic::div_mod::lemma_fundamental_div_mod(
                    total as int,
                    elapsed_seconds as int,
                );
                vstd::arithmetic::div_mod::lemma_mod_bound(total as int, elapsed_seconds as int);
                assert(total == elapsed_seconds * (total / elapsed_seconds) + total
                    % elapsed_seconds);
                assert(r * elapsed_seconds == elapsed_seconds * r) by (nonlinear_arith);
                assert((r + 1) * elapsed_seconds == r * elapsed_seconds + elapsed_seconds)
                    by (nonlinear_arith);
            }
            Some(r)
        }
    }
}

} // verus!
