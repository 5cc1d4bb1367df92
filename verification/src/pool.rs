//! The orchestrator of a run: it owns the workers, asks them to stop, joins
//! them and adds up what they counted.

use vstd::prelude::*;
use crate::counters::{total_reads, total_writes, WorkerCounters};
use crate::label::{spec_worker_label, worker_label};
use crate::pipeline::MAX_REVOCATION_ENTRIES;
use crate::report::{sum_reads, sum_writes, ThroughputReport};
use crate::threaded::{Lifecycle, ThreadedWorker};
use crate::worker::{folded, IndyWorker, LoopEvent};

verus! {

/// The workers of one run, in the order of their labels.
#[derive(Debug)]
pub struct Pool {
    pub workers: Vec<ThreadedWorker>,
    /// For each worker of the pool its index, counted from zero over all
    /// workers that the run tried to start.
    pub indices: Vec<u32>,
    /// The number of workers that the run has tried to start.
    pub attempts: u32,
}

/// The counters of the workers once each has been joined with what its loop
/// handed over.
pub open spec fn spec_joined(workers: Seq<ThreadedWorker>, finished: Seq<(u64, u64)>) -> Seq<
    WorkerCounters,
> {
    Seq::new(workers.len(), |i: int| workers[i].spec_join(finished[i]).spec_counters())
}

/// The writes that a run counts: for each worker that started, those of the
/// results that its loop folded; a worker that never started adds nothing.
pub open spec fn grand_writes(runs: Seq<Option<Vec<LoopEvent>>>) -> int
    decreases runs.len(),
{
    if runs.len() == 0 {
        0
    } else {
        grand_writes(runs.drop_last()) + match runs.last() {
            Some(events) => total_writes(folded(events@)),
            None => 0,
        }
    }
}

/// The reads that a run counts: for each worker that started, those of the
/// results that its loop folded; a worker that never started adds nothing.
pub open spec fn grand_reads(runs: Seq<Option<Vec<LoopEvent>>>) -> int
    decreases runs.len(),
{
    if runs.len() == 0 {
        0
    } else {
        grand_reads(runs.drop_last()) + match runs.last() {
            Some(events) => total_reads(folded(events@)),
            None => 0,
        }
    }
}

/// What the first `n` workers of a run count is at most what all count.
pub proof fn lemma_grand_monotonic(runs: Seq<Option<Vec<LoopEvent>>>, n: int)
    requires
        0 <= n <= runs.len(),
    ensures
        0 <= grand_writes(runs.take(n)) <= grand_writes(runs),
        0 <= grand_reads(runs.take(n)) <= grand_reads(runs),
    decreases runs.len(),
{
    if n == runs.len() {
        assert(runs.take(n) =~= runs);
        if runs.len() > 0 {
            lemma_grand_monotonic(runs.drop_last(), n - 1);
            assert(runs.drop_last().take(n - 1) =~= runs.drop_last());
        }
    } else {
        lemma_grand_monotonic(runs.drop_last(), n);
        assert(runs.drop_last().take(n) =~= runs.take(n));
    }
    if runs.len() > 0 {
        match runs.last() {
            Some(events) => {
                crate::counters::lemma_totals_nonnegative(folded(events@));
            },
            None => {},
        }
    }
}

impl Pool {
    /// The invariant of a pool: it holds only workers that were started,
    /// each under the label of its index, in the order of their indices.
    pub open spec fn wf(self) -> bool {
        &&& self.indices@.len() == self.workers@.len()
        &&& forall|i: int|
            0 <= i < self.workers@.len() ==> (#[trigger] self.workers@[i]).wf()
                && self.workers@[i].state != Lifecycle::Created
        &&& forall|i: int|
            0 <= i < self.workers@.len() ==> (#[trigger] self.workers@[i]).worker.id@
                == spec_worker_label(self.indices@[i])
        &&& forall|i: int| 0 <= i < self.indices@.len() ==> #[trigger] self.indices@[i] < self.attempts
        &&& forall|i: int, j: int|
            0 <= i < j < self.indices@.len() ==> #[trigger] self.indices@[i]
                < #[trigger] self.indices@[j]
    }

    /// A pool without workers.
    pub fn new() -> (pool: Pool)
        ensures
            pool.workers@.len() == 0,
            pool.attempts == 0,
            pool.wf(),
    {
        Pool { workers: Vec::new(), indices: Vec::new(), attempts: 0 }
    }

    /// The number of workers in the pool.
    pub fn len(&self) -> (n: usize)
        ensures
            n == self.workers@.len(),
    {
        self.workers.len()
    }

    /// Takes the next worker of the run into the pool and starts it, where it
    /// could be initialised. Its index is the number of workers tried before
    /// it, and its label that of this index. A worker that could not be
    /// initialised is left out: its index stays unused, and the workers of
    /// the pool stay as they are.
    pub fn enlist(&mut self, reads: u32, revocation_entries: u32, initialised: bool) -> (enlisted:
        bool)
        requires
            old(self).wf(),
            old(self).attempts < u32::MAX,
            revocation_entries <= MAX_REVOCATION_ENTRIES,
        ensures
            enlisted == initialised,
            final(self).wf(),
            final(self).attempts == old(self).attempts + 1,
            !initialised ==> final(self).workers@ == old(self).workers@ && final(self).indices@
                == old(self).indices@,
            initialised ==> {
                &&& final(self).workers@.len() == old(self).workers@.len() + 1
                &&& final(self).workers@.drop_last() == old(self).workers@
                &&& final(self).indices@ == old(self).indices@.push(old(self).attempts)
                &&& final(self).workers@.last().state == Lifecycle::Running
                &&& final(self).workers@.last().worker.id@ == spec_worker_label(old(self).attempts)
                &&& final(self).workers@.last().worker.read_ratio == reads
                &&& final(self).workers@.last().worker.revocation_entries == revocation_entries
                &&& final(self).workers@.last().worker.writes == 0
                &&& final(self).workers@.last().worker.reads == 0
            },
    {
        let index = self.attempts;
        self.attempts = self.attempts + 1;
        if initialised {
            let mut worker = ThreadedWorker::new(worker_label(index), reads, revocation_entries);
            worker.start();
            self.workers.push(worker);
            self.indices.push(index);
            proof {
                assert(self.workers@.drop_last() =~= old(self).workers@);
            }
        }
        initialised
    }

    /// Asks every worker of the pool to stop.
    pub fn stop_all(&mut self)
        requires
            old(self).wf(),
        ensures
            final(self).wf(),
            final(self).workers@.len() == old(self).workers@.len(),
            final(self).indices@ == old(self).indices@,
            final(self).attempts == old(self).attempts,
            forall|i: int|
                0 <= i < old(self).workers@.len() ==> #[trigger] final(self).workers@[i] == old(
                    self,
                ).workers@[i].spec_stop(),
    {
        let mut i: usize = 0;
        while i < self.workers.len()
            invariant
                0 <= i <= self.workers@.len(),
                self.workers@.len() == old(self).workers@.len(),
                self.indices@ == old(self).indices@,
                self.attempts == old(self).attempts,
                old(self).wf(),
                forall|k: int|
                    0 <= k < i ==> #[trigger] self.workers@[k] == old(self).workers@[k].spec_stop(),
                forall|k: int|
                    i <= k < self.workers@.len() ==> #[trigger] self.workers@[k] == old(
                        self,
                    ).workers@[k],
            decreases self.workers@.len() - i,
        {
            let _ = self.workers[i].stop();
            i = i + 1;
        }
    }

    /// Whether the workers can be joined with `finished`: one pair of
    /// counters for each worker, and totals that fit their type.
    pub fn can_join_all(&self, finished: &Vec<(u64, u64)>) -> (fits: bool)
        requires
            self.wf(),
        ensures
            fits == {
                &&& finished@.len() == self.workers@.len()
                &&& sum_writes(spec_joined(self.workers@, finished@)) <= u64::MAX
                &&& sum_reads(spec_joined(self.workers@, finished@)) <= u64::MAX
            },
    {
        if finished.len() != self.workers.len() {
            return false;
        }
        let ghost joined = spec_joined(self.workers@, finished@);
        let mut writes: u64 = 0;
        let mut reads: u64 = 0;
        let mut i: usize = 0;
        while i < self.workers.len()
            invariant
                0 <= i <= self.workers@.len(),
                finished@.len() == self.workers@.len(),
                self.wf(),
                joined == spec_joined(self.workers@, finished@),
                writes == sum_writes(joined.take(i as int)),
                reads == sum_reads(joined.take(i as int)),
            decreases self.workers@.len() - i,
        {
            let counters = match self.workers[i].state {
                Lifecycle::Terminated => self.workers[i].worker.counters(),
                _ => WorkerCounters { writes: finished[i].0, reads: finished[i].1 },
            };
            proof {
                crate::report::lemma_sums_monotonic(joined, i + 1);
                assert(joined.take(i + 1).drop_last() =~= joined.take(i as int));
                assert(joined.take(i + 1).last() == joined[i as int]);
                assert(joined[i as int] == counters);
            }
            if counters.writes > u64::MAX - writes || counters.reads > u64::MAX - reads {
                return false;
            }
            writes = writes + counters.writes;
            reads = reads + counters.reads;
            i = i + 1;
        }
        proof {
            assert(joined.take(i as int) =~= joined);
        }
        true
    }

    /// Joins every worker of the pool, one after the other, with what its
    /// loop handed over, and adds up the final counters of all.
    pub fn join_all(&mut self, finished: &Vec<(u64, u64)>) -> (totals: WorkerCounters)
        requires
            old(self).wf(),
            finished@.len() == old(self).workers@.len(),
            sum_writes(spec_joined(old(self).workers@, finished@)) <= u64::MAX,
            sum_reads(spec_joined(old(self).workers@, finished@)) <= u64::MAX,
        ensures
            final(self).wf(),
            final(self).workers@.len() == old(self).workers@.len(),
            final(self).indices@ == old(self).indices@,
            final(self).attempts == old(self).attempts,
            forall|i: int|
                0 <= i < old(self).workers@.len() ==> #[trigger] final(self).workers@[i] == old(
                    self,
                ).workers@[i].spec_join(finished@[i]),
            forall|i: int|
                0 <= i < old(self).workers@.len() ==> (#[trigger] final(self).workers@[i]).state
                    == Lifecycle::Terminated,
            totals.writes == sum_writes(spec_joined(old(self).workers@, finished@)),
            totals.reads == sum_reads(spec_joined(old(self).workers@, finished@)),
    {
        let ghost joined = spec_joined(old(self).workers@, finished@);
        let mut totals = WorkerCounters::new();
        let mut i: usize = 0;
        while i < self.workers.len()
            invariant
                0 <= i <= self.workers@.len(),
                self.workers@.len() == old(self).workers@.len(),
                self.indices@ == old(self).indices@,
                self.attempts == old(self).attempts,
                finished@.len() == old(self).workers@.len(),
                old(self).wf(),
                joined == spec_joined(old(self).workers@, finished@),
                sum_writes(joined) <= u64::MAX,
                sum_reads(joined) <= u64::MAX,
                totals.writes == sum_writes(joined.take(i as int)),
                totals.reads == sum_reads(joined.take(i as int)),
                forall|k: int|
                    0 <= k < i ==> #[trigger] self.workers@[k] == old(self).workers@[k].spec_join(
                        finished@[k],
                    ),
                forall|k: int|
                    i <= k < self.workers@.len() ==> #[trigger] self.workers@[k] == old(
                        self,
                    ).workers@[k],
            decreases self.workers@.len() - i,
        {
            let result = self.workers[i].join(finished[i]);
            proof {
                crate::report::lemma_sums_monotonic(joined, i + 1);
                assert(joined.take(i + 1).drop_last() =~= joined.take(i as int));
                assert(joined.take(i + 1).last() == joined[i as int]);
            }
            match result {
                Ok(counters) => {
                    totals.writes = totals.writes + counters.writes;
                    totals.reads = totals.reads + counters.reads;
                },
                Err(_) => {},
            }
            i = i + 1;
        }
        proof {
            assert(joined.take(i as int) =~= joined);
        }
        totals
    }
}

/// Whether the counts of a run on `runs` fit the report.
pub fn runs_fit(runs: &Vec<Option<Vec<LoopEvent>>>) -> (fits: bool)
    ensures
        fits == (grand_writes(runs@) <= u64::MAX && grand_reads(runs@) <= u64::MAX),
{
    let mut totals = IndyWorker::new(String::new(), 0, 0);
    let mut i: usize = 0;
    proof {
        assert(runs@.take(0) =~= Seq::empty());
    }
    while i < runs.len()
        invariant
            0 <= i <= runs.len(),
            totals.writes == grand_writes(runs@.take(i as int)),
            totals.reads == grand_reads(runs@.take(i as int)),
        decreases runs.len() - i,
    {
        proof {
            lemma_grand_monotonic(runs@, i + 1);
            assert(runs@.take(i + 1).drop_last() =~= runs@.take(i as int));
            assert(runs@.take(i + 1).last() == runs@[i as int]);
        }
        match &runs[i] {
            Some(events) => {
                if !totals.can_fold_all(events) {
                    return false;
                }
                totals.run_loop(events);
            },
            None => {},
        }
        i = i + 1;
    }
    proof {
        assert(runs@.take(i as int) =~= runs@);
    }
    true
}

/// One whole run, on what its workers met: for the worker with index `i`,
/// `runs[i]` is `None` where it could not be initialised, and else the events
/// that its loop met, in their order.
///
/// Every worker that could be initialised is taken into the pool under its
/// own label and started. When the run is to end, every worker is asked to
/// stop and then joined, one after the other; the report adds up their final
/// counters and carries the measured time. A worker that could not be
/// initialised adds nothing, and the run goes on without it.
pub fn run_load_test(
    threads: u32,
    reads: u32,
    revocation_entries: u32,
    runs: &Vec<Option<Vec<LoopEvent>>>,
    elapsed_seconds: u64,
) -> (report: ThroughputReport)
    requires
        revocation_entries <= MAX_REVOCATION_ENTRIES,
        runs@.len() == threads,
        grand_writes(runs@) <= u64::MAX,
        grand_reads(runs@) <= u64::MAX,
    ensures
        report.total_writes == grand_writes(runs@),
        report.total_reads == grand_reads(runs@),
        report.elapsed_seconds == elapsed_seconds,
{
    let mut pool = Pool::new();
    let mut finished: Vec<(u64, u64)> = Vec::new();
    let ghost mut counted: Seq<WorkerCounters> = Seq::empty();
    let mut i: u32 = 0;
    proof {
        assert(runs@.take(0) =~= Seq::empty());
    }
    while i < threads
        invariant
            0 <= i <= threads,
            runs@.len() == threads,
            revocation_entries <= MAX_REVOCATION_ENTRIES,
            grand_writes(runs@) <= u64::MAX,
            grand_reads(runs@) <= u64::MAX,
            pool.wf(),
            pool.attempts == i,
            pool.workers@.len() == finished@.len(),
            counted.len() == finished@.len(),
            forall|k: int|
                0 <= k < finished@.len() ==> (#[trigger] pool.workers@[k]).state
                    == Lifecycle::Running,
            forall|k: int|
                0 <= k < finished@.len() ==> #[trigger] counted[k] == (WorkerCounters {
                    writes: finished@[k].0,
                    reads: finished@[k].1,
                }),
            sum_writes(counted) == grand_writes(runs@.take(i as int)),
            sum_reads(counted) == grand_reads(runs@.take(i as int)),
        decreases threads - i,
    {
        proof {
            lemma_grand_monotonic(runs@, i + 1);
            assert(runs@.take(i + 1).drop_last() =~= runs@.take(i as int));
            assert(runs@.take(i + 1).last() == runs@[i as int]);
        }
        match &runs[i as usize] {
            Some(events) => {
                let ghost before = pool.workers@;
                pool.enlist(reads, revocation_entries, true);
                let mut worker = IndyWorker::new(worker_label(i), reads, revocation_entries);
                proof {
                    crate::counters::lemma_totals_nonnegative(folded(events@));
                    lemma_grand_monotonic(runs@, i as int);
                }
                let counters = worker.run_loop(events);
                finished.push(counters);
                proof {
                    let entry = WorkerCounters { writes: counters.0, reads: counters.1 };
                    assert(counted.push(entry).drop_last() =~= counted);
                    counted = counted.push(entry);
                    assert forall|k: int| 0 <= k < finished@.len() implies (
                    #[trigger] pool.workers@[k]).state == Lifecycle::Running by {
                        if k < before.len() {
                            assert(pool.workers@[k] == pool.workers@.drop_last()[k]);
                        }
                    }
                }
            },
            None => {
                pool.enlist(reads, revocation_entries, false);
            },
        }
        i = i + 1;
    }
    proof {
        assert(runs@.take(i as int) =~= runs@);
    }
    let ghost started = pool.workers@;
    pool.stop_all();
    proof {
        assert(spec_joined(pool.workers@, finished@) =~= counted) by {
            assert forall|k: int| 0 <= k < counted.len() implies spec_joined(
                pool.workers@,
                finished@,
            )[k] == counted[k] by {
                assert(pool.workers@[k] == started[k].spec_stop());
                assert(started[k].state == Lifecycle::Running);
            }
        }
    }
    let totals = pool.join_all(&finished);
    ThroughputReport::new(totals, elapsed_seconds)
}

/// Within a pool no two workers share a label.
pub proof fn law_pool_labels_distinct(pool: Pool, first: int, second: int)
    requires
        pool.wf(),
        0 <= first < pool.workers@.len(),
        0 <= second < pool.workers@.len(),
        first != second,
    ensures
        pool.workers@[first].worker.id@ != pool.workers@[second].worker.id@,
{
    if first < second {
        assert(pool.indices@[first] < pool.indices@[second]);
    } else {
        assert(pool.indices@[second] < pool.indices@[first]);
    }
    crate::label::law_labels_distinct(pool.indices@[first], pool.indices@[second]);
}

} // verus!
