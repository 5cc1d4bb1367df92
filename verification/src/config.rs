//! What a run is configured with, and what follows from it.

use vstd::prelude::*;

verus! {

/// The arguments of a run.
#[derive(Clone, Debug)]
pub struct Args {
    /// Seed to sign transactions with.
    pub seed: String,
    /// Path to the pool transaction genesis file.
    pub genesis_file: String,
    /// Parallel workers; the number of logical cores where not given.
    pub threads: Option<u32>,
    /// Time to run for in seconds; until interrupted where not given.
    pub duration: Option<u64>,
    /// Reads per write.
    pub reads: i8,
    /// Revocation entries of each pipeline.
    pub revocation_entries: u32,
}

/// What ends a run. Exactly one of the two is in force during a run.
#[derive(Clone, Copy, Debug, PartialEq, Eq, Structural)]
pub enum StopCondition {
    /// The run ends when this many seconds have passed.
    After(u64),
    /// The run ends when an interrupt arrives from outside.
    UntilInterrupt,
}

/// The number of workers of a run on a machine with `cores` logical cores:
/// the number asked for, and else the number of cores, as far as it fits.
pub open spec fn spec_worker_count(threads: Option<u32>, cores: usize) -> u32 {
    match threads {
        Some(count) => count,
        None => ((cores as int) % 0x1_0000_0000) as u32,
    }
}

/// The number of reads that follow each write pipeline: none for a negative
/// ratio.
pub open spec fn spec_reads_per_write(reads: i8) -> u32 {
    if reads < 0 {
        0
    } else {
        reads as u32
    }
}

/// What ends a run with the given duration.
pub open spec fn spec_stop_condition(duration: Option<u64>) -> StopCondition {
    match duration {
        Some(seconds) => StopCondition::After(seconds),
        None => StopCondition::UntilInterrupt,
    }
}

/// Whether a run under `condition` is to end, `elapsed` seconds after its
/// start and with or without an interrupt received.
pub open spec fn spec_stop_due(condition: StopCondition, elapsed: u64, interrupted: bool) -> bool {
    match condition {
        StopCondition::After(seconds) => elapsed >= seconds,
        StopCondition::UntilInterrupt => interrupted,
    }
}

/// Asks `num_cpus::get` for the number of logical cores that this process
/// can use. The answer depends on the machine; the crate documents that it
/// is at least one, and the contract claims no more.
#[verifier::external_body]
fn logical_cores() -> (cores: usize)
    ensures
        cores >= 1,
{
    num_cpus::get()
}

/// The number of workers of a run on a machine with `cores` logical cores.
pub fn worker_count(threads: Option<u32>, cores: usize) -> (count: u32)
    ensures
        count == spec_worker_count(threads, cores),
{
    match threads {
        Some(count) => count,
        None => {
            let low: u64 = (cores as u64) % 0x1_0000_0000;
            low as u32
        },
    }
}

/// Whether a run under `condition` is to end, `elapsed` seconds after its
/// start and with or without an interrupt received. A run with a duration
/// does not end by an interrupt, and one without does not end by time.
pub fn stop_due(condition: StopCondition, elapsed: u64, interrupted: bool) -> (due: bool)
    ensures
        due == spec_stop_due(condition, elapsed, interrupted),
{
    match condition {
        StopCondition::After(seconds) => elapsed >= seconds,
        StopCondition::UntilInterrupt => interrupted,
    }
}

impl Args {
    /// The number of workers of the run on this machine: the number asked
    /// for, whatever the machine; and else the number of its logical cores.
    pub fn worker_count(&self) -> (count: u32)
        ensures
            self.threads matches Some(asked) ==> count == asked,
            self.threads is None ==> exists|cores: usize|
                cores >= 1 && count == #[trigger] spec_worker_count(None, cores),
    {
        match self.threads {
            Some(count) => count,
            None => {
                let cores = logical_cores();
                worker_count(None, cores)
            },
        }
    }

    /// The number of reads that follow each write pipeline.
    pub fn reads_per_write(&self) -> (reads: u32)
        ensures
            reads == spec_reads_per_write(self.reads),
    {
        if self.reads < 0 {
            0
        } else {
            self.reads as u32
        }
    }

    /// What ends the run.
    pub fn stop_condition(&self) -> (condition: StopCondition)
        ensures
            condition == spec_stop_condition(self.duration),
    {
        match self.duration {
            Some(seconds) => StopCondition::After(seconds),
            None => StopCondition::UntilInterrupt,
        }
    }
}

} // verus!
