//! Whole pipeline executions: what a pipeline reports for a given sequence of
//! outcomes, and what holds of every such execution.

use vstd::prelude::*;
use crate::counters::{PipelineResult, Stage};
use crate::pipeline::{answers, Outcome, Pipeline, Position, Step, MAX_REVOCATION_ENTRIES};

verus! {

impl Pipeline {
    /// The pipeline after the outcomes were reported to it one by one.
    pub open spec fn spec_run(self, outcomes: Seq<Outcome>) -> Pipeline
        decreases outcomes.len(),
    {
        if outcomes.len() == 0 {
            self
        } else {
            self.spec_run(outcomes.drop_last()).spec_advance(outcomes.last())
        }
    }

    /// Whether no step of the write phase fails while `outcomes` are reported:
    /// each outcome answers the step that is awaited when it arrives, and the
    /// reply to the schema's submission holds a sequence number.
    pub open spec fn spec_unfailing(self, outcomes: Seq<Outcome>) -> bool {
        forall|i: int|
            #![trigger outcomes[i]]
            0 <= i < outcomes.len() ==> {
                let before = self.spec_run(outcomes.take(i));
                before.position matches Position::Writing { stage, step } ==> {
                    &&& answers(step, outcomes[i])
                    &&& stage == Stage::Schema && step == Step::Submit ==> before.spec_sequence_of(
                        outcomes[i],
                    ) is Some
                }
            }
    }

    /// Whether the write phase has gone through all its stages: through the
    /// entry updates where it has them, and else up to its last stage.
    pub open spec fn spec_writes_complete(self) -> bool {
        &&& !(self.position is Writing)
        &&& if self.last_stage == Stage::RevocationEntry {
            &&& self.writes == 5 + self.entry_target()
            &&& self.info.rev_entries == self.entry_target()
            &&& self.last_completed == Some(
                if self.entry_target() > 0 {
                    Stage::RevocationEntry
                } else {
                    Stage::RevocationRegistryInit
                },
            )
        } else {
            &&& self.writes == self.last_stage.ordinal()
            &&& self.info.rev_entries == 0
            &&& self.last_completed == Some(self.last_stage)
        }
    }

    /// Reports the outcomes to the pipeline one by one.
    pub fn run(&mut self, outcomes: &Vec<Outcome>)
        requires
            old(self).wf(),
        ensures
            *final(self) == old(self).spec_run(outcomes@),
            final(self).wf(),
    {
        let mut i: usize = 0;
        while i < outcomes.len()
            invariant
                0 <= i <= outcomes.len(),
                self.wf(),
                *self == old(self).spec_run(outcomes@.take(i as int)),
            decreases outcomes.len() - i,
        {
            proof {
                assert(outcomes@.take(i + 1).drop_last() =~= outcomes@.take(i as int));
            }
            self.advance(&outcomes[i]);
            i = i + 1;
        }
        proof {
            assert(outcomes@.take(i as int) =~= outcomes@);
        }
    }
}

/// Runs one pipeline on the given outcomes, reported in this order, and
/// returns what it has counted when they are used up.
pub fn replay(revocation_entries: u32, reads_per_write: u32, outcomes: &Vec<Outcome>) -> (result:
    PipelineResult)
    requires
        revocation_entries <= MAX_REVOCATION_ENTRIES,
    ensures
        result == Pipeline::spec_new(revocation_entries, reads_per_write).spec_run(
            outcomes@,
        ).spec_result(),
{
    let mut pipeline = Pipeline::new(revocation_entries, reads_per_write);
    pipeline.run(outcomes);
    pipeline.result()
}

/// Reporting outcomes keeps the invariant of the pipeline.
pub proof fn lemma_run_wf(pipeline: Pipeline, outcomes: Seq<Outcome>)
    requires
        pipeline.wf(),
    ensures
        pipeline.spec_run(outcomes).wf(),
    decreases outcomes.len(),
{
    if outcomes.len() > 0 {
        lemma_run_wf(pipeline, outcomes.drop_last());
    }
}

/// Reporting `first` and then `rest` is reporting the two in one sequence.
pub proof fn lemma_run_split(pipeline: Pipeline, first: Seq<Outcome>, rest: Seq<Outcome>)
    ensures
        pipeline.spec_run(first + rest) == pipeline.spec_run(first).spec_run(rest),
    decreases rest.len(),
{
    if rest.len() == 0 {
        assert(first + rest =~= first);
    } else {
        lemma_run_split(pipeline, first, rest.drop_last());
        assert((first + rest).drop_last() =~= first + rest.drop_last());
        assert((first + rest).last() == rest.last());
    }
}

/// No outcome ever takes back what was counted: the writes, the entry
/// updates and the reads of a pipeline only grow, by at most one at a time.
pub proof fn law_counts_never_decrease(pipeline: Pipeline, outcome: Outcome)
    requires
        pipeline.wf(),
    ensures
        pipeline.writes <= pipeline.spec_advance(outcome).writes <= pipeline.writes + 1,
        pipeline.reads <= pipeline.spec_advance(outcome).reads <= pipeline.reads + 1,
        pipeline.info.rev_entries <= pipeline.spec_advance(outcome).info.rev_entries
            <= pipeline.info.rev_entries + 1,
{
}

/// Over a whole execution the counts only grow.
pub proof fn law_run_counts_never_decrease(pipeline: Pipeline, outcomes: Seq<Outcome>)
    requires
        pipeline.wf(),
    ensures
        pipeline.writes <= pipeline.spec_run(outcomes).writes,
        pipeline.reads <= pipeline.spec_run(outcomes).reads,
        pipeline.info.rev_entries <= pipeline.spec_run(outcomes).info.rev_entries,
    decreases outcomes.len(),
{
    if outcomes.len() > 0 {
        law_run_counts_never_decrease(pipeline, outcomes.drop_last());
        lemma_run_wf(pipeline, outcomes.drop_last());
        law_counts_never_decrease(pipeline.spec_run(outcomes.drop_last()), outcomes.last());
    }
}

/// A failure at any step of a stage ends the write phase at once: the count
/// of writes stays that of the stages before, and so does the last stage
/// completed.
pub proof fn law_failure_ends_write_phase(pipeline: Pipeline, outcome: Outcome)
    requires
        pipeline.wf(),
        pipeline.position matches Position::Writing { stage, step } && !answers(step, outcome),
    ensures
        !(pipeline.spec_advance(outcome).position is Writing),
        pipeline.spec_advance(outcome).writes == pipeline.writes,
        pipeline.spec_advance(outcome).last_completed == pipeline.last_completed,
        pipeline.spec_advance(outcome).info == pipeline.info,
        pipeline.position matches Position::Writing { stage, step } && pipeline.writes
            == stage.ordinal() - 1 + pipeline.info.rev_entries,
{
}

/// Once the write phase is over, no outcome starts another stage or changes
/// what was written.
pub proof fn law_write_phase_is_final(pipeline: Pipeline, outcomes: Seq<Outcome>)
    requires
        pipeline.wf(),
        !(pipeline.position is Writing),
    ensures
        !(pipeline.spec_run(outcomes).position is Writing),
        pipeline.spec_run(outcomes).writes == pipeline.writes,
        pipeline.spec_run(outcomes).last_completed == pipeline.last_completed,
        pipeline.spec_run(outcomes).info == pipeline.info,
    decreases outcomes.len(),
{
    if outcomes.len() > 0 {
        law_write_phase_is_final(pipeline, outcomes.drop_last());
        lemma_run_wf(pipeline, outcomes.drop_last());
    }
}

/// Where the outcome at index `at` fails a step of some stage, the whole
/// execution counts the writes of the stages before that stage and no other:
/// one less than the stage's number, and for an entry update the five stages
/// before it and the entry updates already made.
pub proof fn law_failure_at_stage(
    last_stage: Stage,
    revocation_entries: u32,
    reads_per_write: u32,
    outcomes: Seq<Outcome>,
    at: int,
)
    requires
        revocation_entries <= MAX_REVOCATION_ENTRIES,
        0 <= at < outcomes.len(),
        Pipeline::spec_up_to(last_stage, revocation_entries, reads_per_write).spec_run(
            outcomes.take(at),
        ).position matches Position::Writing { stage, step } && !answers(step, outcomes[at]),
    ensures
        ({
            let start = Pipeline::spec_up_to(last_stage, revocation_entries, reads_per_write);
            let before = start.spec_run(outcomes.take(at));
            let end = start.spec_run(outcomes);
            &&& before.position matches Position::Writing { stage, step } && {
                &&& end.writes == stage.ordinal() - 1 + before.info.rev_entries
                &&& stage != Stage::RevocationEntry ==> end.writes == stage.ordinal() - 1
                &&& stage != Stage::RevocationEntry ==> end.last_completed == stage.spec_previous()
            }
            &&& end.writes == before.writes
            &&& end.info == before.info
            &&& !(end.position is Writing)
        }),
{
    let start = Pipeline::spec_up_to(last_stage, revocation_entries, reads_per_write);
    let before = start.spec_run(outcomes.take(at));
    let failed = before.spec_advance(outcomes[at]);
    let rest = outcomes.skip(at + 1);
    lemma_run_wf(start, outcomes.take(at));
    law_failure_ends_write_phase(before, outcomes[at]);
    assert(outcomes.take(at + 1).drop_last() =~= outcomes.take(at));
    assert(start.spec_run(outcomes.take(at + 1)) == failed);
    lemma_run_wf(start, outcomes.take(at + 1));
    law_write_phase_is_final(failed, rest);
    lemma_run_split(start, outcomes.take(at + 1), rest);
    assert(outcomes.take(at + 1) + rest =~= outcomes);
}

/// No execution makes more entry updates than one less than the configured
/// number of entries. With zero or one entry configured, or a write phase
/// that ends before the entry updates, it makes none, and never waits for a
/// step of an entry update.
pub proof fn law_entry_updates_bounded(
    last_stage: Stage,
    revocation_entries: u32,
    reads_per_write: u32,
    outcomes: Seq<Outcome>,
)
    requires
        revocation_entries <= MAX_REVOCATION_ENTRIES,
    ensures
        ({
            let end = Pipeline::spec_up_to(last_stage, revocation_entries, reads_per_write).spec_run(
                outcomes,
            );
            let none = revocation_entries <= 1 || last_stage != Stage::RevocationEntry;
            &&& end.info.rev_entries <= end.entry_target()
            &&& none ==> end.info.rev_entries == 0
            &&& none ==> !(end.position matches Position::Writing {
                stage: Stage::RevocationEntry,
                ..
            })
            &&& revocation_entries > 1 ==> end.entry_target() == revocation_entries - 1
        }),
{
    let start = Pipeline::spec_up_to(last_stage, revocation_entries, reads_per_write);
    lemma_run_wf(start, outcomes);
    lemma_run_configuration(start, outcomes);
}

/// Reporting outcomes never changes what the pipeline was configured with.
pub proof fn lemma_run_configuration(pipeline: Pipeline, outcomes: Seq<Outcome>)
    ensures
        pipeline.spec_run(outcomes).revocation_entries == pipeline.revocation_entries,
        pipeline.spec_run(outcomes).reads_per_write == pipeline.reads_per_write,
        pipeline.spec_run(outcomes).last_stage == pipeline.last_stage,
    decreases outcomes.len(),
{
    if outcomes.len() > 0 {
        lemma_run_configuration(pipeline, outcomes.drop_last());
    }
}

/// Entry updates are made one after the other: the pipeline asks for the
/// update with index `k` only when `k - 1` updates were accepted, and an
/// accepted update raises that count by exactly one.
pub proof fn law_entry_updates_in_order(pipeline: Pipeline, outcome: Outcome)
    requires
        pipeline.wf(),
        pipeline.position matches Position::Writing { stage: Stage::RevocationEntry, .. },
    ensures
        pipeline.spec_operation(Stage::RevocationEntry) == (crate::pipeline::Operation::RevocationEntry {
            index: (pipeline.info.rev_entries + 1) as u32,
        }),
        pipeline.writes == 5 + pipeline.info.rev_entries,
        pipeline.spec_advance(outcome).info.rev_entries == if pipeline.position
            == (Position::Writing { stage: Stage::RevocationEntry, step: Step::Submit })
            && outcome is Reply {
            pipeline.info.rev_entries + 1
        } else {
            pipeline.info.rev_entries as int
        },
{
}

/// While no step fails, the pipeline is still writing or has gone through
/// the whole write phase. With all stages that is five writes and one less
/// entry update than the configured number of entries (none where that is
/// zero); with an earlier last stage, the writes up to that stage.
pub proof fn law_unfailing_run_completes(
    last_stage: Stage,
    revocation_entries: u32,
    reads_per_write: u32,
    outcomes: Seq<Outcome>,
)
    requires
        revocation_entries <= MAX_REVOCATION_ENTRIES,
        Pipeline::spec_up_to(last_stage, revocation_entries, reads_per_write).spec_unfailing(
            outcomes,
        ),
    ensures
        ({
            let end = Pipeline::spec_up_to(last_stage, revocation_entries, reads_per_write).spec_run(
                outcomes,
            );
            end.position is Writing || end.spec_writes_complete()
        }),
    decreases outcomes.len(),
{
    let start = Pipeline::spec_up_to(last_stage, revocation_entries, reads_per_write);
    if outcomes.len() > 0 {
        let shorter = outcomes.drop_last();
        assert forall|i: int| #![trigger shorter[i]] 0 <= i < shorter.len() implies {
            let before = start.spec_run(shorter.take(i));
            before.position matches Position::Writing { stage, step } ==> {
                &&& answers(step, shorter[i])
                &&& stage == Stage::Schema && step == Step::Submit ==> before.spec_sequence_of(
                    shorter[i],
                ) is Some
            }
        } by {
            assert(shorter.take(i) =~= outcomes.take(i));
            assert(shorter[i] == outcomes[i]);
        }
        law_unfailing_run_completes(last_stage, revocation_entries, reads_per_write, shorter);
        lemma_run_wf(start, shorter);
        lemma_run_configuration(start, shorter);
        let last = outcomes.len() - 1;
        assert(outcomes.take(last) =~= shorter);
        assert(outcomes[last] == outcomes.last());
    }
}

} // verus!
