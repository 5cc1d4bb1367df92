//! What one pipeline execution reports, and the counters a worker keeps of it.

use vstd::prelude::*;

verus! {

/// The stages of the write pipeline, in the order in which they run.
#[derive(Clone, Copy, Debug, PartialEq, Eq, Structural)]
pub enum Stage {
    /// Registers a new identity under the operator's authority.
    Identity,
    /// Registers a schema under the new identity.
    Schema,
    /// Registers a credential definition that refers to the schema.
    CredentialDefinition,
    /// Registers a revocation registry definition for the credential definition.
    RevocationRegistryDefinition,
    /// Initialises the revocation registry on the ledger.
    RevocationRegistryInit,
    /// Updates the revocation registry by one entry; runs zero or more times.
    RevocationEntry,
}

impl Stage {
    /// The position of the stage in the pipeline, counted from one.
    pub open spec fn ordinal(self) -> int {
        match self {
            Stage::Identity => 1,
            Stage::Schema => 2,
            Stage::CredentialDefinition => 3,
            Stage::RevocationRegistryDefinition => 4,
            Stage::RevocationRegistryInit => 5,
            Stage::RevocationEntry => 6,
        }
    }

    /// The position of the stage in the pipeline, counted from one.
    pub fn number(self) -> (n: u8)
        ensures
            n == self.ordinal(),
    {
        match self {
            Stage::Identity => 1,
            Stage::Schema => 2,
            Stage::CredentialDefinition => 3,
            Stage::RevocationRegistryDefinition => 4,
            Stage::RevocationRegistryInit => 5,
            Stage::RevocationEntry => 6,
        }
    }

    /// The stage before this one; `None` for the first.
    pub open spec fn spec_previous(self) -> Option<Stage> {
        match self {
            Stage::Identity => None,
            Stage::Schema => Some(Stage::Identity),
            Stage::CredentialDefinition => Some(Stage::Schema),
            Stage::RevocationRegistryDefinition => Some(Stage::CredentialDefinition),
            Stage::RevocationRegistryInit => Some(Stage::RevocationRegistryDefinition),
            Stage::RevocationEntry => Some(Stage::RevocationRegistryInit),
        }
    }

    /// The stage before this one; `None` for the first.
    pub fn previous(self) -> (p: Option<Stage>)
        ensures
            p == self.spec_previous(),
            p matches Some(s) ==> s.ordinal() == self.ordinal() - 1,
            p is None <==> self == Stage::Identity,
    {
        match self {
            Stage::Identity => None,
            Stage::Schema => Some(Stage::Identity),
            Stage::CredentialDefinition => Some(Stage::Schema),
            Stage::RevocationRegistryDefinition => Some(Stage::CredentialDefinition),
            Stage::RevocationRegistryInit => Some(Stage::RevocationRegistryDefinition),
            Stage::RevocationEntry => Some(Stage::RevocationRegistryInit),
        }
    }
}

/// What one pipeline execution reports to the worker that ran it.
#[derive(Clone, Copy, Debug, PartialEq, Eq, Structural)]
pub struct PipelineResult {
    /// Writes that the ledger accepted during this execution.
    pub writes_completed: u64,
    /// Reads that succeeded during this execution.
    pub reads_completed: u64,
    /// The last stage that completed; `None` where not even the first did.
    pub last_completed_stage: Option<Stage>,
}

/// The sum of `writes_completed` over `results`.
pub open spec fn total_writes(results: Seq<PipelineResult>) -> int
    decreases results.len(),
{
    if results.len() == 0 {
        0
    } else {
        total_writes(results.drop_last()) + results.last().writes_completed
    }
}

/// The sum of `reads_completed` over `results`.
pub open spec fn total_reads(results: Seq<PipelineResult>) -> int
    decreases results.len(),
{
    if results.len() == 0 {
        0
    } else {
        total_reads(results.drop_last()) + results.last().reads_completed
    }
}

/// The number of writes and reads that one worker has completed.
#[derive(Clone, Copy, Debug, PartialEq, Eq, Structural)]
pub struct WorkerCounters {
    pub writes: u64,
    pub reads: u64,
}

impl WorkerCounters {
    /// Counters of a worker that has done nothing yet.
    pub fn new() -> (c: WorkerCounters)
        ensures
            c.writes == 0,
            c.reads == 0,
    {
        WorkerCounters { writes: 0, reads: 0 }
    }

    /// Whether `result` can be added without leaving the range of the counters.
    pub open spec fn spec_can_record(self, result: PipelineResult) -> bool {
        &&& self.writes + result.writes_completed <= u64::MAX
        &&& self.reads + result.reads_completed <= u64::MAX
    }

    /// Whether `result` can be added without leaving the range of the counters.
    pub fn can_record(&self, result: &PipelineResult) -> (b: bool)
        ensures
            b == self.spec_can_record(*result),
    {
        result.writes_completed <= u64::MAX - self.writes && result.reads_completed <= u64::MAX
            - self.reads
    }

    /// Adds what one completed pipeline execution reports.
    pub fn record(&mut self, result: &PipelineResult)
        requires
            old(self).spec_can_record(*result),
        ensures
            final(self).writes == old(self).writes + result.writes_completed,
            final(self).reads == old(self).reads + result.reads_completed,
    {
        self.writes = self.writes + result.writes_completed;
        self.reads = self.reads + result.reads_completed;
    }

    /// The counters as the pair that a worker hands over when it ends.
    pub fn as_pair(&self) -> (p: (u64, u64))
        ensures
            p.0 == self.writes,
            p.1 == self.reads,
    {
        (self.writes, self.reads)
    }
}

/// Appending one result adds its counts to the totals.
pub proof fn lemma_totals_push(results: Seq<PipelineResult>, next: PipelineResult)
    ensures
        total_writes(results.push(next)) == total_writes(results) + next.writes_completed,
        total_reads(results.push(next)) == total_reads(results) + next.reads_completed,
{
    assert(results.push(next).drop_last() =~= results);
}

/// The totals are never negative.
pub proof fn lemma_totals_nonnegative(results: Seq<PipelineResult>)
    ensures
        total_writes(results) >= 0,
        total_reads(results) >= 0,
    decreases results.len(),
{
    if results.len() > 0 {
        lemma_totals_nonnegative(results.drop_last());
    }
}

} // verus!
