//! The worker: its counters and the loop that folds pipeline results into
//! them until a command ends it.

use vstd::prelude::*;
use crate::counters::{total_reads, total_writes, PipelineResult, WorkerCounters};
use crate::pipeline::{Pipeline, MAX_REVOCATION_ENTRIES};

verus! {

/// A command that the orchestrator sends to a running worker.
#[derive(Clone, Copy, Debug, PartialEq, Eq, Structural)]
pub enum Message {
    /// End the loop and hand over the counters.
    Exit,
}

/// What a worker's loop meets at the point where it waits: a command, or the
/// result of the pipeline execution it started.
#[derive(Clone, Copy, Debug, PartialEq, Eq, Structural)]
pub enum LoopEvent {
    Command(Message),
    Completed(PipelineResult),
}

/// The event that the loop acts on when it looks at both of its sources: a
/// command wins over a completed pipeline, and with neither there is none yet.
pub open spec fn spec_resolve(command: Option<Message>, completed: Option<PipelineResult>) -> Option<
    LoopEvent,
> {
    match command {
        Some(message) => Some(LoopEvent::Command(message)),
        None => match completed {
            Some(result) => Some(LoopEvent::Completed(result)),
            None => None,
        },
    }
}

/// The event that the loop acts on when it looks at both of its sources: a
/// command wins over a completed pipeline, and with neither there is none yet.
pub fn resolve(command: Option<Message>, completed: Option<PipelineResult>) -> (event: Option<
    LoopEvent,
>)
    ensures
        event == spec_resolve(command, completed),
{
    match command {
        Some(message) => Some(LoopEvent::Command(message)),
        None => match completed {
            Some(result) => Some(LoopEvent::Completed(result)),
            None => None,
        },
    }
}

/// The results that a loop folds when it meets `events` in this order: those
/// that complete before the first command. What follows that command is never
/// looked at.
pub open spec fn folded(events: Seq<LoopEvent>) -> Seq<PipelineResult>
    decreases events.len(),
{
    if events.len() == 0 {
        Seq::empty()
    } else {
        match events.first() {
            LoopEvent::Command(_) => Seq::empty(),
            LoopEvent::Completed(result) => seq![result] + folded(events.skip(1)),
        }
    }
}

/// The totals of two sequences of results add up over their concatenation.
pub proof fn lemma_totals_concat(first: Seq<PipelineResult>, second: Seq<PipelineResult>)
    ensures
        total_writes(first + second) == total_writes(first) + total_writes(second),
        total_reads(first + second) == total_reads(first) + total_reads(second),
        total_writes(second) >= 0,
        total_reads(second) >= 0,
    decreases second.len(),
{
    if second.len() == 0 {
        assert(first + second =~= first);
    } else {
        lemma_totals_concat(first, second.drop_last());
        assert((first + second).drop_last() =~= first + second.drop_last());
        assert((first + second).last() == second.last());
    }
}

/// A worker: what it was configured with, and its counters.
#[derive(Clone, Debug)]
pub struct IndyWorker {
    /// The label that tells this worker from the others of a run.
    pub id: String,
    /// The number of reads that follow each write pipeline.
    pub read_ratio: u32,
    /// The configured number of revocation entries of each pipeline.
    pub revocation_entries: u32,
    pub writes: u64,
    pub reads: u64,
}

impl IndyWorker {
    /// The invariant of a worker: its pipelines can be built.
    pub open spec fn wf(self) -> bool {
        self.revocation_entries <= MAX_REVOCATION_ENTRIES
    }

    /// The counters of the worker.
    pub open spec fn spec_counters(self) -> WorkerCounters {
        WorkerCounters { writes: self.writes, reads: self.reads }
    }

    /// Whether the results that the loop folds from `events` fit the counters.
    pub open spec fn spec_can_fold(self, events: Seq<LoopEvent>) -> bool {
        &&& self.writes + total_writes(folded(events)) <= u64::MAX
        &&& self.reads + total_reads(folded(events)) <= u64::MAX
    }

    /// A worker that has done nothing yet.
    pub fn new(id: String, read_ratio: u32, revocation_entries: u32) -> (worker: IndyWorker)
        requires
            revocation_entries <= MAX_REVOCATION_ENTRIES,
        ensures
            worker.id == id,
            worker.read_ratio == read_ratio,
            worker.revocation_entries == revocation_entries,
            worker.writes == 0,
            worker.reads == 0,
            worker.wf(),
    {
        IndyWorker { id, read_ratio, revocation_entries, writes: 0, reads: 0 }
    }

    /// The counters of the worker.
    pub fn counters(&self) -> (counters: WorkerCounters)
        ensures
            counters == self.spec_counters(),
    {
        WorkerCounters { writes: self.writes, reads: self.reads }
    }

    /// A pipeline for the next iteration of the loop, before its first step.
    pub fn pipeline(&self) -> (pipeline: Pipeline)
        requires
            self.wf(),
        ensures
            pipeline == Pipeline::spec_new(self.revocation_entries, self.read_ratio),
            pipeline.wf(),
    {
        Pipeline::new(self.revocation_entries, self.read_ratio)
    }

    /// Whether `result` can be folded without leaving the range of the counters.
    pub fn can_fold(&self, result: &PipelineResult) -> (b: bool)
        ensures
            b == self.spec_counters().spec_can_record(*result),
    {
        self.counters().can_record(result)
    }

    /// Acts on one event of the loop. A completed pipeline is folded into the
    /// counters, once, and the loop goes on: the result is `None`. A command
    /// ends the loop: the result is the counters as they stand.
    pub fn on_event(&mut self, event: LoopEvent) -> (ended: Option<(u64, u64)>)
        requires
            event matches LoopEvent::Completed(result) ==> old(self).spec_counters().spec_can_record(
                result,
            ),
        ensures
            final(self).id == old(self).id,
            final(self).read_ratio == old(self).read_ratio,
            final(self).revocation_entries == old(self).revocation_entries,
            match event {
                LoopEvent::Command(_) => {
                    &&& ended == Some((old(self).writes, old(self).reads))
                    &&& *final(self) == *old(self)
                },
                LoopEvent::Completed(result) => {
                    &&& ended is None
                    &&& final(self).writes == old(self).writes + result.writes_completed
                    &&& final(self).reads == old(self).reads + result.reads_completed
                },
            },
    {
        match event {
            LoopEvent::Command(_) => Some((self.writes, self.reads)),
            LoopEvent::Completed(result) => {
                self.writes = self.writes + result.writes_completed;
                self.reads = self.reads + result.reads_completed;
                None
            },
        }
    }

    /// Whether the results that the loop folds from `events` fit the counters.
    pub fn can_fold_all(&self, events: &Vec<LoopEvent>) -> (fits: bool)
        ensures
            fits == self.spec_can_fold(events@),
    {
        let ghost mut done: Seq<PipelineResult> = Seq::empty();
        let mut writes: u64 = self.writes;
        let mut reads: u64 = self.reads;
        let mut i: usize = 0;
        proof {
            assert(events@.skip(0) =~= events@);
            assert(done + folded(events@) =~= folded(events@));
        }
        while i < events.len()
            invariant
                0 <= i <= events.len(),
                folded(events@) == done + folded(events@.skip(i as int)),
                writes == self.writes + total_writes(done),
                reads == self.reads + total_reads(done),
            decreases events.len() - i,
        {
            proof {
                let rest = events@.skip(i as int);
                assert(rest.first() == events@[i as int]);
                assert(rest.skip(1) =~= events@.skip(i + 1));
            }
            match events[i] {
                LoopEvent::Command(_) => {
                    proof {
                        assert(done + folded(events@.skip(i as int)) =~= done);
                    }
                    return true;
                },
                LoopEvent::Completed(result) => {
                    proof {
                        let tail = folded(events@.skip(i + 1));
                        assert(done + (seq![result] + tail) =~= done.push(result) + tail);
                        lemma_totals_concat(done.push(result), tail);
                        crate::counters::lemma_totals_push(done, result);
                    }
                    if result.writes_completed > u64::MAX - writes || result.reads_completed
                        > u64::MAX - reads {
                        return false;
                    }
                    writes = writes + result.writes_completed;
                    reads = reads + result.reads_completed;
                    proof {
                        done = done.push(result);
                    }
                },
            }
            i = i + 1;
        }
        proof {
            assert(events@.skip(i as int) =~= Seq::empty());
            assert(done + folded(events@.skip(i as int)) =~= done);
        }
        true
    }

    /// The loop of the worker, on the events that it meets in this order.
    ///
    /// Every result that completes before the first command is folded into
    /// the counters exactly once; the command ends the loop, and nothing after
    /// it is counted. The counters at that point are returned, and they are
    /// the worker's counters from then on.
    pub fn run_loop(&mut self, events: &Vec<LoopEvent>) -> (counters: (u64, u64))
        requires
            old(self).spec_can_fold(events@),
        ensures
            counters.0 == old(self).writes + total_writes(folded(events@)),
            counters.1 == old(self).reads + total_reads(folded(events@)),
            final(self).writes == counters.0,
            final(self).reads == counters.1,
            final(self).id == old(self).id,
            final(self).read_ratio == old(self).read_ratio,
            final(self).revocation_entries == old(self).revocation_entries,
    {
        let ghost mut done: Seq<PipelineResult> = Seq::empty();
        let mut i: usize = 0;
        proof {
            assert(done + folded(events@.skip(0)) =~= folded(events@)) by {
                assert(events@.skip(0) =~= events@);
            }
        }
        while i < events.len()
            invariant
                0 <= i <= events.len(),
                folded(events@) == done + folded(events@.skip(i as int)),
                self.writes == old(self).writes + total_writes(done),
                self.reads == old(self).reads + total_reads(done),
                old(self).spec_can_fold(events@),
                self.id == old(self).id,
                self.read_ratio == old(self).read_ratio,
                self.revocation_entries == old(self).revocation_entries,
            decreases events.len() - i,
        {
            let event = events[i];
            proof {
                let rest = events@.skip(i as int);
                assert(rest.first() == event);
                assert(rest.skip(1) =~= events@.skip(i + 1));
                match event {
                    LoopEvent::Command(_) => {
                        assert(folded(rest) =~= Seq::empty());
                        assert(done + folded(rest) =~= done);
                    },
                    LoopEvent::Completed(result) => {
                        let tail = folded(events@.skip(i + 1));
                        assert(done + (seq![result] + tail) =~= done.push(result) + tail);
                        lemma_totals_concat(done.push(result), tail);
                        crate::counters::lemma_totals_push(done, result);
                    },
                }
            }
            match self.on_event(event) {
                Some(counters) => {
                    return counters;
                },
                None => {},
            }
            proof {
                done = done.push(event->Completed_0);
            }
            i = i + 1;
        }
        proof {
            assert(events@.skip(i as int) =~= Seq::empty());
            assert(done + folded(events@.skip(i as int)) =~= done);
        }
        (self.writes, self.reads)
    }
}

/// What the loop folds are the results that complete before the first
/// command, each once and in their order: with `n` results before it, the
/// loop folds these `n` and nothing else.
pub proof fn law_folded_is_what_precedes_the_command(events: Seq<LoopEvent>, n: int)
    requires
        0 <= n <= events.len(),
        forall|i: int| 0 <= i < n ==> events[i] is Completed,
        n < events.len() ==> events[n] is Command,
    ensures
        folded(events).len() == n,
        forall|i: int| 0 <= i < n ==> folded(events)[i] == events[i]->Completed_0,
    decreases n,
{
    if n > 0 {
        let rest = events.skip(1);
        assert(events.first() == events[0]);
        assert forall|i: int| 0 <= i < n - 1 implies rest[i] is Completed by {
            assert(rest[i] == events[i + 1]);
        }
        law_folded_is_what_precedes_the_command(rest, n - 1);
        assert forall|i: int| 0 <= i < n implies folded(events)[i] == events[i]->Completed_0 by {
            if i > 0 {
                assert(folded(events)[i] == folded(rest)[i - 1]);
                assert(rest[i - 1] == events[i]);
            }
        }
    } else if events.len() > 0 {
        assert(events.first() == events[0]);
    }
}

/// A command that the loop meets when no pipeline has returned ends it at
/// once: nothing is folded, whatever would have followed.
pub proof fn law_command_first_folds_nothing(events: Seq<LoopEvent>)
    requires
        events.len() > 0,
        events[0] is Command,
    ensures
        folded(events) == Seq::<PipelineResult>::empty(),
        total_writes(folded(events)) == 0,
        total_reads(folded(events)) == 0,
{
    assert(events.first() == events[0]);
}

/// A pipeline that returns before the command is folded whole: the loop
/// never counts part of a pipeline, and never one that had not returned.
pub proof fn law_result_before_command_is_folded(result: PipelineResult, rest: Seq<LoopEvent>)
    ensures
        folded(seq![LoopEvent::Completed(result)] + rest) == seq![result] + folded(rest),
        total_writes(folded(seq![LoopEvent::Completed(result)] + rest)) == result.writes_completed
            + total_writes(folded(rest)),
        total_reads(folded(seq![LoopEvent::Completed(result)] + rest)) == result.reads_completed
            + total_reads(folded(rest)),
{
    let events = seq![LoopEvent::Completed(result)] + rest;
    assert(events.first() == LoopEvent::Completed(result));
    assert(events.skip(1) =~= rest);
    lemma_totals_concat(seq![result], folded(rest));
    assert(seq![result].drop_last() =~= Seq::<PipelineResult>::empty());
    assert(total_writes(seq![result]) == result.writes_completed) by {
        assert(total_writes(seq![result].drop_last()) == 0);
    }
    assert(total_reads(seq![result]) == result.reads_completed) by {
        assert(total_reads(seq![result].drop_last()) == 0);
    }
}

} // verus!
