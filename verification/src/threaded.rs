//! The life cycle of a worker as its orchestrator sees it: created, started,
//! asked to stop, joined.

use vstd::prelude::*;
use crate::counters::WorkerCounters;
use crate::pipeline::MAX_REVOCATION_ENTRIES;
use crate::worker::IndyWorker;

verus! {

/// The states that a worker goes through, in this order.
#[derive(Clone, Copy, Debug, PartialEq, Eq, Structural)]
pub enum Lifecycle {
    /// Created and not started.
    Created,
    /// Started; its loop runs.
    Running,
    /// Asked to stop; its loop has not yet handed over the counters.
    Stopping,
    /// Its loop has ended and the counters are final.
    Terminated,
}

/// Misuse of a worker's life cycle.
#[derive(Clone, Copy, Debug, PartialEq, Eq, Structural)]
pub enum WorkerError {
    /// The worker was asked to stop, or joined, before it was started.
    NotStarted,
}

impl WorkerError {
    /// The error in words.
    pub fn message(&self) -> (text: &'static str)
        ensures
            text@ == "Worker was not started, cannot stop"@,
    {
        match self {
            WorkerError::NotStarted => "Worker was not started, cannot stop",
        }
    }
}

/// A worker as its orchestrator holds it.
#[derive(Clone, Debug)]
pub struct ThreadedWorker {
    /// The worker; its counters are zero until it has terminated, and those
    /// that its loop handed over from then on.
    pub worker: IndyWorker,
    pub state: Lifecycle,
}

impl ThreadedWorker {
    /// The invariant of a worker: it holds counters only once it has terminated.
    pub open spec fn wf(self) -> bool {
        &&& self.worker.wf()
        &&& self.state != Lifecycle::Terminated ==> self.worker.writes == 0 && self.worker.reads
            == 0
    }

    /// The counters that the worker holds.
    pub open spec fn spec_counters(self) -> WorkerCounters {
        self.worker.spec_counters()
    }

    /// The worker after `start`.
    pub open spec fn spec_start(self) -> ThreadedWorker {
        if self.state == Lifecycle::Created {
            ThreadedWorker { state: Lifecycle::Running, ..self }
        } else {
            self
        }
    }

    /// The worker after `stop`.
    pub open spec fn spec_stop(self) -> ThreadedWorker {
        if self.state == Lifecycle::Running {
            ThreadedWorker { state: Lifecycle::Stopping, ..self }
        } else {
            self
        }
    }

    /// What `stop` answers.
    pub open spec fn spec_stop_result(self) -> Result<(), WorkerError> {
        if self.state == Lifecycle::Created {
            Err(WorkerError::NotStarted)
        } else {
            Ok(())
        }
    }

    /// The worker after `join`, where its loop handed over `finished`.
    pub open spec fn spec_join(self, finished: (u64, u64)) -> ThreadedWorker {
        match self.state {
            Lifecycle::Created | Lifecycle::Terminated => self,
            Lifecycle::Running | Lifecycle::Stopping => ThreadedWorker {
                state: Lifecycle::Terminated,
                worker: IndyWorker { writes: finished.0, reads: finished.1, ..self.worker },
            },
        }
    }

    /// What `join` answers, where the worker's loop handed over `finished`.
    pub open spec fn spec_join_result(self, finished: (u64, u64)) -> Result<
        WorkerCounters,
        WorkerError,
    > {
        match self.state {
            Lifecycle::Created => Err(WorkerError::NotStarted),
            _ => Ok(self.spec_join(finished).spec_counters()),
        }
    }

    /// A worker with the label `id`, created and not started.
    pub fn new(id: String, reads: u32, revocation_entries: u32) -> (created: ThreadedWorker)
        requires
            revocation_entries <= MAX_REVOCATION_ENTRIES,
        ensures
            created.worker.id == id,
            created.worker.read_ratio == reads,
            created.worker.revocation_entries == revocation_entries,
            created.state == Lifecycle::Created,
            created.spec_counters() == (WorkerCounters { writes: 0, reads: 0 }),
            created.wf(),
    {
        ThreadedWorker {
            worker: IndyWorker::new(id, reads, revocation_entries),
            state: Lifecycle::Created,
        }
    }

    /// Starts the worker: a created worker runs from now on. A worker that was
    /// started before stays as it is.
    pub fn start(&mut self)
        ensures
            *final(self) == old(self).spec_start(),
            old(self).wf() ==> final(self).wf(),
    {
        match self.state {
            Lifecycle::Created => {
                self.state = Lifecycle::Running;
            },
            _ => {},
        }
    }

    /// Asks the worker to stop. A running worker is stopping from now on; one
    /// that was asked before, or has terminated, stays as it is. A worker that
    /// was not started cannot be stopped.
    pub fn stop(&mut self) -> (result: Result<(), WorkerError>)
        ensures
            *final(self) == old(self).spec_stop(),
            result == old(self).spec_stop_result(),
            old(self).wf() ==> final(self).wf(),
    {
        match self.state {
            Lifecycle::Created => Err(WorkerError::NotStarted),
            Lifecycle::Running => {
                self.state = Lifecycle::Stopping;
                Ok(())
            },
            _ => Ok(()),
        }
    }

    /// Takes over the counters `finished` that the worker's loop returned when
    /// it ended, and answers with the worker's final counters. Joining a
    /// worker that has terminated answers with the counters taken over then:
    /// they never change again. A worker that was not started has none.
    pub fn join(&mut self, finished: (u64, u64)) -> (result: Result<WorkerCounters, WorkerError>)
        ensures
            *final(self) == old(self).spec_join(finished),
            result == old(self).spec_join_result(finished),
            old(self).wf() ==> final(self).wf(),
    {
        match self.state {
            Lifecycle::Created => Err(WorkerError::NotStarted),
            Lifecycle::Terminated => Ok(self.worker.counters()),
            _ => {
                self.state = Lifecycle::Terminated;
                self.worker.writes = finished.0;
                self.worker.reads = finished.1;
                Ok(self.worker.counters())
            },
        }
    }

    /// Whether the worker runs and was not asked to stop: the one state in
    /// which a stop sends the command to its loop.
    pub fn is_running(&self) -> (running: bool)
        ensures
            running == (self.state == Lifecycle::Running),
    {
        match self.state {
            Lifecycle::Running => true,
            _ => false,
        }
    }

    /// Whether the worker was started.
    pub fn is_started(&self) -> (started: bool)
        ensures
            started == (self.state != Lifecycle::Created),
    {
        match self.state {
            Lifecycle::Created => false,
            _ => true,
        }
    }
}

/// Asking a worker to stop a second time changes nothing and answers as the
/// first time did.
pub proof fn law_stop_is_idempotent(worker: ThreadedWorker)
    ensures
        worker.spec_stop().spec_stop() == worker.spec_stop(),
        worker.spec_stop().spec_stop_result() == worker.spec_stop_result(),
{
}

/// Asking a worker to stop never touches its counters or its label, and
/// whatever its loop hands over afterwards is what `join` answers with.
pub proof fn law_stop_keeps_counters(worker: ThreadedWorker, finished: (u64, u64))
    requires
        worker.wf(),
        worker.state == Lifecycle::Running,
    ensures
        worker.spec_stop().worker == worker.worker,
        worker.spec_stop().spec_join_result(finished) == worker.spec_join_result(finished),
        worker.spec_stop().spec_stop().spec_join(finished) == worker.spec_stop().spec_join(finished),
{
}

/// A worker terminates once: after it, no start, stop or join changes the
/// worker or its counters.
pub proof fn law_terminated_is_final(worker: ThreadedWorker, finished: (u64, u64))
    requires
        worker.state == Lifecycle::Terminated,
    ensures
        worker.spec_start() == worker,
        worker.spec_stop() == worker,
        worker.spec_join(finished) == worker,
        worker.spec_join_result(finished) == Ok::<WorkerCounters, WorkerError>(
            worker.spec_counters(),
        ),
{
}

/// Before a worker is started, `stop` and `join` fail and change nothing.
pub proof fn law_not_started(worker: ThreadedWorker, finished: (u64, u64))
    requires
        worker.state == Lifecycle::Created,
    ensures
        worker.spec_stop_result() == Err::<(), WorkerError>(WorkerError::NotStarted),
        worker.spec_join_result(finished) == Err::<WorkerCounters, WorkerError>(
            WorkerError::NotStarted,
        ),
        worker.spec_stop() == worker,
        worker.spec_join(finished) == worker,
{
}

} // verus!
