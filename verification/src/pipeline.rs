//! The write pipeline of one worker iteration, as a state machine.
//!
//! The pipeline asks for one action at a time ([`Pipeline::next_action`]) and
//! is told what came of it ([`Pipeline::advance`]). Whoever drives it performs
//! the actions against the ledger; the pipeline decides what comes next and
//! keeps the account of what was completed.

use vstd::prelude::*;
use crate::counters::{PipelineResult, Stage};
use crate::reply::{reply_sequence_number, sequence_number, spec_narrow};

verus! {

/// Credentials that a revocation registry can hold beyond the configured
/// number of entries.
pub const REGISTRY_HEADROOM: u32 = 5;

/// The largest number of revocation entries that a pipeline accepts, so that
/// the registry's capacity still fits its type.
pub const MAX_REVOCATION_ENTRIES: u32 = 4294967290;

/// The three steps that every stage takes.
#[derive(Clone, Copy, Debug, PartialEq, Eq, Structural)]
pub enum Step {
    /// Build the unsigned operation from what the stage before produced.
    Build,
    /// Sign the operation.
    Sign,
    /// Submit the signed operation and wait for the ledger's answer.
    Submit,
}

/// The key that signs an operation.
#[derive(Clone, Copy, Debug, PartialEq, Eq, Structural)]
pub enum KeyRole {
    /// The operator's key: it signs the registration of the new identity.
    Operator,
    /// The key of the identity that this pipeline registered.
    Identity,
}

/// What came of the action that the pipeline asked for.
#[derive(Clone, Debug)]
pub enum Outcome {
    /// The operation was built; the string is the identifier that it registers
    /// (of no interest for operations that register none).
    Built(String),
    /// The operation was signed.
    Signed,
    /// The ledger answered a submission or a read with this reply.
    Reply(String),
    /// The action failed, or the ledger rejected the operation.
    Failed,
}

/// The operation that a build step is to produce.
#[derive(Clone, Copy, Debug, PartialEq, Eq, Structural)]
pub enum Operation {
    Identity,
    Schema,
    /// The credential definition for the schema with this sequence number.
    CredentialDefinition { schema_sequence: u32 },
    /// The registry definition, for at most `capacity` credentials.
    RevocationRegistryDefinition { capacity: u32 },
    RevocationRegistryInit,
    /// The entry update with this index, counted from one.
    RevocationEntry { index: u32 },
}

/// What the pipeline asks its driver to do next.
#[derive(Clone, Copy, Debug, PartialEq, Eq, Structural)]
pub enum Action {
    Build(Operation),
    Sign { stage: Stage, key: KeyRole },
    Submit { stage: Stage },
    /// Perform the read with this index, counted from one.
    Read { index: u32 },
    /// Nothing is left to do: this is the result.
    Finish(PipelineResult),
}

/// Where the pipeline stands.
#[derive(Clone, Copy, Debug, PartialEq, Eq, Structural)]
pub enum Position {
    /// The write phase waits for the outcome of `step` of `stage`.
    Writing { stage: Stage, step: Step },
    /// The read phase waits for the outcome of a read.
    Reading,
    /// Nothing is left to do.
    Finished,
}

/// What the write phase has registered so far.
#[derive(Clone, Debug)]
pub struct WriteInformation {
    pub did: Option<String>,
    pub schema_id: Option<String>,
    pub cred_def_id: Option<String>,
    pub rev_reg_def_id: Option<String>,
    /// Revocation entry updates that the ledger accepted.
    pub rev_entries: u32,
}

impl WriteInformation {
    /// The information of a write phase that has registered nothing.
    pub fn new() -> (info: WriteInformation)
        ensures
            info.did is None,
            info.schema_id is None,
            info.cred_def_id is None,
            info.rev_reg_def_id is None,
            info.rev_entries == 0,
    {
        WriteInformation {
            did: None,
            schema_id: None,
            cred_def_id: None,
            rev_reg_def_id: None,
            rev_entries: 0,
        }
    }

    /// The information after `stage` completed with the identifier `id`.
    pub open spec fn with_completed(self, stage: Stage, id: Option<String>) -> WriteInformation {
        match stage {
            Stage::Identity => WriteInformation { did: id, ..self },
            Stage::Schema => WriteInformation { schema_id: id, ..self },
            Stage::CredentialDefinition => WriteInformation { cred_def_id: id, ..self },
            Stage::RevocationRegistryDefinition => WriteInformation { rev_reg_def_id: id, ..self },
            Stage::RevocationRegistryInit => self,
            Stage::RevocationEntry => WriteInformation {
                rev_entries: (self.rev_entries + 1) as u32,
                ..self
            },
        }
    }
}

/// Whether `outcome` reports the success of `step`.
pub open spec fn answers(step: Step, outcome: Outcome) -> bool {
    match step {
        Step::Build => outcome is Built,
        Step::Sign => outcome is Signed,
        Step::Submit => outcome is Reply,
    }
}

/// One execution of the write pipeline and of the reads that follow it.
#[derive(Clone, Debug)]
pub struct Pipeline {
    /// The configured number of revocation entries.
    pub revocation_entries: u32,
    /// The number of reads that follow the write phase.
    pub reads_per_write: u32,
    /// The stage with which a complete write phase ends.
    pub last_stage: Stage,
    pub position: Position,
    /// Writes that the ledger accepted.
    pub writes: u64,
    /// Reads that were performed, whatever came of them.
    pub reads_attempted: u32,
    /// Reads that succeeded.
    pub reads: u64,
    pub last_completed: Option<Stage>,
    pub info: WriteInformation,
    /// The identifier of the operation that is being signed or submitted.
    pub pending: Option<String>,
    /// The sequence number that the ledger gave the schema.
    pub sequence: Option<u32>,
}

impl Pipeline {
    /// The number of entry updates that a complete write phase performs: one
    /// less than the configured number of entries, and none where that is zero.
    pub open spec fn entry_target(self) -> int {
        if self.revocation_entries == 0 {
            0
        } else {
            self.revocation_entries - 1
        }
    }

    /// The invariant of a pipeline: the account of writes agrees with the
    /// position, and the reads stay within their number.
    pub open spec fn wf(self) -> bool {
        &&& self.revocation_entries <= MAX_REVOCATION_ENTRIES
        &&& self.info.rev_entries <= self.entry_target()
        &&& self.reads <= self.reads_attempted <= self.reads_per_write
        &&& self.writes <= 5 + self.info.rev_entries
        &&& (self.info.rev_entries > 0 ==> self.writes == 5 + self.info.rev_entries)
        &&& (self.info.rev_entries > 0 ==> self.last_stage == Stage::RevocationEntry)
        &&& match self.last_completed {
            None => self.writes == 0,
            Some(Stage::RevocationEntry) => self.info.rev_entries > 0,
            Some(stage) => self.writes == stage.ordinal(),
        }
        &&& match self.position {
            Position::Writing { stage, step } => {
                &&& self.writes == stage.ordinal() - 1 + self.info.rev_entries
                &&& stage.ordinal() <= self.last_stage.ordinal()
                &&& self.reads_attempted == 0
                &&& stage == Stage::RevocationEntry ==> self.info.rev_entries < self.entry_target()
                &&& stage.ordinal() >= 3 ==> self.sequence is Some
            },
            Position::Reading => self.reads_attempted < self.reads_per_write,
            Position::Finished => true,
        }
    }

    /// The pipeline with its write phase over: the reads follow, if there are any.
    pub open spec fn spec_end_writes(self) -> Pipeline {
        Pipeline {
            position: if self.reads_attempted < self.reads_per_write {
                Position::Reading
            } else {
                Position::Finished
            },
            pending: None,
            ..self
        }
    }

    /// The stage that follows `stage` once it has completed, if the write phase
    /// goes on. `self` is the pipeline after the completion was counted.
    pub open spec fn spec_following(self, stage: Stage) -> Option<Stage> {
        if stage != Stage::RevocationEntry && stage.ordinal() >= self.last_stage.ordinal() {
            None
        } else {
            match stage {
                Stage::Identity => Some(Stage::Schema),
                Stage::Schema => if self.sequence is Some {
                    Some(Stage::CredentialDefinition)
                } else {
                    None
                },
                Stage::CredentialDefinition => Some(Stage::RevocationRegistryDefinition),
                Stage::RevocationRegistryDefinition => Some(Stage::RevocationRegistryInit),
                Stage::RevocationRegistryInit | Stage::RevocationEntry => if self.info.rev_entries
                    < self.entry_target() {
                    Some(Stage::RevocationEntry)
                } else {
                    None
                },
            }
        }
    }

    /// The pipeline after the ledger accepted the operation of `stage`;
    /// `sequence` is the sequence number that its reply holds.
    pub open spec fn spec_complete(self, stage: Stage, sequence: Option<u32>) -> Pipeline {
        let counted = Pipeline {
            writes: (self.writes + 1) as u64,
            last_completed: Some(stage),
            info: self.info.with_completed(stage, self.pending),
            pending: None,
            sequence: if stage == Stage::Schema {
                sequence
            } else {
                self.sequence
            },
            ..self
        };
        match counted.spec_following(stage) {
            Some(next) => Pipeline {
                position: Position::Writing { stage: next, step: Step::Build },
                ..counted
            },
            None => counted.spec_end_writes(),
        }
    }

    /// The pipeline after one read with the given outcome.
    pub open spec fn spec_read(self, outcome: Outcome) -> Pipeline {
        let attempted = (self.reads_attempted + 1) as u32;
        Pipeline {
            reads_attempted: attempted,
            reads: if outcome is Reply {
                (self.reads + 1) as u64
            } else {
                self.reads
            },
            position: if attempted < self.reads_per_write {
                Position::Reading
            } else {
                Position::Finished
            },
            ..self
        }
    }

    /// The pipeline after `outcome` was reported for the action it asked for;
    /// `sequence` is the sequence number that a reply holds.
    ///
    /// Any outcome but the success of the awaited step ends the write phase
    /// with the writes counted so far. A read counts where the ledger replied.
    /// A finished pipeline stays as it is.
    pub open spec fn spec_apply(self, outcome: Outcome, sequence: Option<u32>) -> Pipeline {
        match self.position {
            Position::Finished => self,
            Position::Reading => self.spec_read(outcome),
            Position::Writing { stage, step } => if !answers(step, outcome) {
                self.spec_end_writes()
            } else {
                match step {
                    Step::Build => Pipeline {
                        position: Position::Writing { stage, step: Step::Sign },
                        pending: Some(outcome->Built_0),
                        ..self
                    },
                    Step::Sign => Pipeline {
                        position: Position::Writing { stage, step: Step::Submit },
                        ..self
                    },
                    Step::Submit => self.spec_complete(stage, sequence),
                }
            },
        }
    }

    /// The sequence number that `outcome` carries for the pipeline: that of the
    /// reply to the schema's submission, and none otherwise.
    pub open spec fn spec_sequence_of(self, outcome: Outcome) -> Option<u32> {
        if self.position == (Position::Writing { stage: Stage::Schema, step: Step::Submit })
            && outcome is Reply {
            spec_narrow(reply_sequence_number(outcome->Reply_0@))
        } else {
            None
        }
    }

    /// The pipeline after `outcome` was reported for the action it asked for.
    pub open spec fn spec_advance(self, outcome: Outcome) -> Pipeline {
        self.spec_apply(outcome, self.spec_sequence_of(outcome))
    }

    /// What the pipeline reports to its worker.
    pub open spec fn spec_result(self) -> PipelineResult {
        PipelineResult {
            writes_completed: self.writes,
            reads_completed: self.reads,
            last_completed_stage: self.last_completed,
        }
    }

    /// The operation that the build step of `stage` is to produce.
    pub open spec fn spec_operation(self, stage: Stage) -> Operation {
        match stage {
            Stage::Identity => Operation::Identity,
            Stage::Schema => Operation::Schema,
            Stage::CredentialDefinition => Operation::CredentialDefinition {
                schema_sequence: self.sequence->Some_0,
            },
            Stage::RevocationRegistryDefinition => Operation::RevocationRegistryDefinition {
                capacity: (self.revocation_entries + REGISTRY_HEADROOM) as u32,
            },
            Stage::RevocationRegistryInit => Operation::RevocationRegistryInit,
            Stage::RevocationEntry => Operation::RevocationEntry {
                index: (self.info.rev_entries + 1) as u32,
            },
        }
    }

    /// The action that the pipeline waits for.
    pub open spec fn spec_next_action(self) -> Action {
        match self.position {
            Position::Writing { stage, step: Step::Build } => Action::Build(
                self.spec_operation(stage),
            ),
            Position::Writing { stage, step: Step::Sign } => Action::Sign {
                stage,
                key: if stage == Stage::Identity {
                    KeyRole::Operator
                } else {
                    KeyRole::Identity
                },
            },
            Position::Writing { stage, step: Step::Submit } => Action::Submit { stage },
            Position::Reading => Action::Read { index: (self.reads_attempted + 1) as u32 },
            Position::Finished => Action::Finish(self.spec_result()),
        }
    }

    /// The pipeline with all stages, before its first step.
    pub open spec fn spec_new(revocation_entries: u32, reads_per_write: u32) -> Pipeline {
        Pipeline::spec_up_to(Stage::RevocationEntry, revocation_entries, reads_per_write)
    }

    /// The pipeline whose write phase ends with `last_stage`, before its
    /// first step.
    pub open spec fn spec_up_to(
        last_stage: Stage,
        revocation_entries: u32,
        reads_per_write: u32,
    ) -> Pipeline {
        Pipeline {
            revocation_entries,
            reads_per_write,
            last_stage,
            position: Position::Writing { stage: Stage::Identity, step: Step::Build },
            writes: 0,
            reads_attempted: 0,
            reads: 0,
            last_completed: None,
            info: WriteInformation {
                did: None,
                schema_id: None,
                cred_def_id: None,
                rev_reg_def_id: None,
                rev_entries: 0,
            },
            pending: None,
            sequence: None,
        }
    }
}

impl Pipeline {
    /// A pipeline with all stages before its first step, for the configured
    /// number of revocation entries and of reads.
    pub fn new(revocation_entries: u32, reads_per_write: u32) -> (pipeline: Pipeline)
        requires
            revocation_entries <= MAX_REVOCATION_ENTRIES,
        ensures
            pipeline == Pipeline::spec_new(revocation_entries, reads_per_write),
            pipeline.wf(),
    {
        Pipeline::up_to(Stage::RevocationEntry, revocation_entries, reads_per_write)
    }

    /// A pipeline before its first step whose write phase ends with
    /// `last_stage`: the stages after it are never asked for.
    pub fn up_to(last_stage: Stage, revocation_entries: u32, reads_per_write: u32) -> (pipeline:
        Pipeline)
        requires
            revocation_entries <= MAX_REVOCATION_ENTRIES,
        ensures
            pipeline == Pipeline::spec_up_to(last_stage, revocation_entries, reads_per_write),
            pipeline.wf(),
    {
        Pipeline {
            revocation_entries,
            reads_per_write,
            last_stage,
            position: Position::Writing { stage: Stage::Identity, step: Step::Build },
            writes: 0,
            reads_attempted: 0,
            reads: 0,
            last_completed: None,
            info: WriteInformation::new(),
            pending: None,
            sequence: None,
        }
    }

    /// Whether nothing is left to do.
    pub fn is_finished(&self) -> (finished: bool)
        ensures
            finished == (self.position == Position::Finished),
    {
        match self.position {
            Position::Finished => true,
            _ => false,
        }
    }

    /// What the pipeline reports to its worker: the writes and reads counted
    /// so far, and the last stage that completed.
    pub fn result(&self) -> (result: PipelineResult)
        ensures
            result == self.spec_result(),
    {
        PipelineResult {
            writes_completed: self.writes,
            reads_completed: self.reads,
            last_completed_stage: self.last_completed,
        }
    }

    /// The operation that the build step of `stage` is to produce.
    fn operation(&self, stage: Stage) -> (operation: Operation)
        requires
            self.wf(),
            self.position == (Position::Writing { stage, step: Step::Build }),
        ensures
            operation == self.spec_operation(stage),
    {
        match stage {
            Stage::Identity => Operation::Identity,
            Stage::Schema => Operation::Schema,
            Stage::CredentialDefinition => Operation::CredentialDefinition {
                schema_sequence: self.sequence.unwrap(),
            },
            Stage::RevocationRegistryDefinition => Operation::RevocationRegistryDefinition {
                capacity: self.revocation_entries + REGISTRY_HEADROOM,
            },
            Stage::RevocationRegistryInit => Operation::RevocationRegistryInit,
            Stage::RevocationEntry => Operation::RevocationEntry {
                index: self.info.rev_entries + 1,
            },
        }
    }

    /// The action that the pipeline waits for.
    pub fn next_action(&self) -> (action: Action)
        requires
            self.wf(),
        ensures
            action == self.spec_next_action(),
    {
        match self.position {
            Position::Writing { stage, step } => match step {
                Step::Build => Action::Build(self.operation(stage)),
                Step::Sign => Action::Sign {
                    stage,
                    key: match stage {
                        Stage::Identity => KeyRole::Operator,
                        _ => KeyRole::Identity,
                    },
                },
                Step::Submit => Action::Submit { stage },
            },
            Position::Reading => Action::Read { index: self.reads_attempted + 1 },
            Position::Finished => Action::Finish(self.result()),
        }
    }

    /// Ends the write phase: the reads follow, if there are any.
    fn end_writes(&mut self)
        ensures
            *final(self) == old(self).spec_end_writes(),
    {
        self.position = if self.reads_attempted < self.reads_per_write {
            Position::Reading
        } else {
            Position::Finished
        };
        self.pending = None;
    }

    /// Counts the completion of `stage` and moves to what follows it.
    fn complete(&mut self, stage: Stage, sequence: Option<u32>)
        requires
            old(self).wf(),
            old(self).position == (Position::Writing { stage, step: Step::Submit }),
        ensures
            *final(self) == old(self).spec_complete(stage, sequence),
            final(self).wf(),
    {
        let id = self.pending.take();
        self.writes = self.writes + 1;
        self.last_completed = Some(stage);
        match stage {
            Stage::Identity => {
                self.info.did = id;
            },
            Stage::Schema => {
                self.info.schema_id = id;
                self.sequence = sequence;
            },
            Stage::CredentialDefinition => {
                self.info.cred_def_id = id;
            },
            Stage::RevocationRegistryDefinition => {
                self.info.rev_reg_def_id = id;
            },
            Stage::RevocationRegistryInit => {},
            Stage::RevocationEntry => {
                self.info.rev_entries = self.info.rev_entries + 1;
            },
        }
        match self.following(stage) {
            Some(next) => {
                self.position = Position::Writing { stage: next, step: Step::Build };
            },
            None => {
                self.end_writes();
            },
        }
    }

    /// The stage that follows `stage` once its completion was counted, if the
    /// write phase goes on.
    fn following(&self, stage: Stage) -> (following: Option<Stage>)
        ensures
            following == self.spec_following(stage),
    {
        let entry_left = self.revocation_entries > 0 && self.info.rev_entries
            < self.revocation_entries - 1;
        let further = stage.number() < self.last_stage.number();
        match stage {
            Stage::RevocationEntry => if entry_left {
                Some(Stage::RevocationEntry)
            } else {
                None
            },
            _ => if !further {
                None
            } else {
                match stage {
                    Stage::Identity => Some(Stage::Schema),
                    Stage::Schema => match self.sequence {
                        Some(_) => Some(Stage::CredentialDefinition),
                        None => None,
                    },
                    Stage::CredentialDefinition => Some(Stage::RevocationRegistryDefinition),
                    Stage::RevocationRegistryDefinition => Some(Stage::RevocationRegistryInit),
                    _ => if entry_left {
                        Some(Stage::RevocationEntry)
                    } else {
                        None
                    },
                }
            },
        }
    }

    /// Counts one read with the given outcome.
    fn read(&mut self, outcome: &Outcome)
        requires
            old(self).wf(),
            old(self).position == Position::Reading,
        ensures
            *final(self) == old(self).spec_read(*outcome),
            final(self).wf(),
    {
        self.reads_attempted = self.reads_attempted + 1;
        match outcome {
            Outcome::Reply(_) => {
                self.reads = self.reads + 1;
            },
            _ => {},
        }
        self.position = if self.reads_attempted < self.reads_per_write {
            Position::Reading
        } else {
            Position::Finished
        };
    }

    /// Reports `outcome` for the action that the pipeline asked for, where the
    /// sequence number that a reply holds is already known.
    ///
    /// Any outcome but the success of the awaited step ends the write phase
    /// with the writes counted so far; the pipeline never retries a step.
    pub fn apply(&mut self, outcome: &Outcome, sequence: Option<u32>)
        requires
            old(self).wf(),
        ensures
            *final(self) == old(self).spec_apply(*outcome, sequence),
            final(self).wf(),
    {
        match self.position {
            Position::Finished => {},
            Position::Reading => {
                self.read(outcome);
            },
            Position::Writing { stage, step } => match step {
                Step::Build => match outcome {
                    Outcome::Built(id) => {
                        self.position = Position::Writing { stage, step: Step::Sign };
                        self.pending = Some(id.clone());
                    },
                    _ => {
                        self.end_writes();
                    },
                },
                Step::Sign => match outcome {
                    Outcome::Signed => {
                        self.position = Position::Writing { stage, step: Step::Submit };
                    },
                    _ => {
                        self.end_writes();
                    },
                },
                Step::Submit => match outcome {
                    Outcome::Reply(_) => {
                        self.complete(stage, sequence);
                    },
                    _ => {
                        self.end_writes();
                    },
                },
            },
        }
    }

    /// Reports `outcome` for the action that the pipeline asked for. The
    /// sequence number of the schema is read from the reply to its submission.
    pub fn advance(&mut self, outcome: &Outcome)
        requires
            old(self).wf(),
        ensures
            *final(self) == old(self).spec_advance(*outcome),
            final(self).wf(),
    {
        let sequence = match (&self.position, outcome) {
            (Position::Writing { stage: Stage::Schema, step: Step::Submit }, Outcome::Reply(reply)) => {
                sequence_number(reply.as_str())
            },
            _ => None,
        };
        self.apply(outcome, sequence);
    }
}

} // verus!
