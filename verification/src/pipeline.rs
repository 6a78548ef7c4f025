//! The dispatcher and the drain manager: the two roles whose decisions
//! drive the pipeline.
//!
//! The dispatcher admits commands while its source lasts, starts a batch
//! for each and hands the batch's handle to the drain queue; when the
//! source is exhausted it closes the queue and waits for the drain. The
//! drain manager awaits the admitted batches strictly in admission order
//! and stops at the first fault. The loops around these decisions suspend
//! on channels and await running tasks, so they live outside this crate;
//! each observed event is reported here, and the contracts say what every
//! transition does and which events each state still accepts.

use vstd::prelude::*;

use crate::batch::{all_ok, first_fault, first_fault_at, lemma_first_fault_at, lemma_first_fault_ok,
    Fault};

verus! {

/// How many batches may be in flight without having been drain-awaited.
pub const DRAIN_QUEUE_CAPACITY: usize = 32;

/// How many seconds one fetch may take before it counts as failed.
pub const FETCH_TIMEOUT_SECS: u64 = 5;

/// Where the dispatcher stands.
#[derive(Clone, Copy, PartialEq, Eq, Structural, Debug)]
pub enum DispatcherPhase {
    /// Commands are being accepted from the source.
    Running,
    /// The source is exhausted; the queue is closed and the drain runs out.
    Draining,
    /// An admission fault: the drain queue was gone while commands
    /// remained. The pipeline is aborted.
    Failed,
}

/// The dispatcher's admission state: how many batches it has started and
/// whether it still accepts commands.
pub struct Dispatcher {
    phase: DispatcherPhase,
    admitted: u64,
}

impl Dispatcher {
    /// The phase the dispatcher is in.
    pub closed spec fn phase(self) -> DispatcherPhase {
        self.phase
    }

    /// How many batches have been admitted so far.
    pub closed spec fn admitted_count(self) -> u64 {
        self.admitted
    }

    /// Whether the next command from the source would still be accepted.
    pub open spec fn accepts_commands(self) -> bool {
        self.phase() is Running
    }

    /// A dispatcher that has admitted nothing and accepts commands.
    pub fn new() -> (dispatcher: Dispatcher)
        ensures
            dispatcher.accepts_commands(),
            dispatcher.admitted_count() == 0,
    {
        Dispatcher { phase: DispatcherPhase::Running, admitted: 0 }
    }

    /// Reports whether the next command would still be accepted.
    pub fn is_accepting(&self) -> (accepting: bool)
        ensures
            accepting == self.accepts_commands(),
    {
        match self.phase {
            DispatcherPhase::Running => true,
            _ => false,
        }
    }

    /// Reports how many batches have been admitted so far.
    pub fn admitted(&self) -> (count: u64)
        ensures
            count == self.admitted_count(),
    {
        self.admitted
    }

    /// A command arrived and its batch's handle entered the drain queue:
    /// one more batch is admitted, and the dispatcher keeps accepting.
    pub fn command_admitted(&mut self)
        requires
            old(self).accepts_commands(),
            old(self).admitted_count() < u64::MAX,
        ensures
            final(self).accepts_commands(),
            final(self).admitted_count() == old(self).admitted_count() + 1,
    {
        self.admitted = self.admitted + 1;
    }

    /// The drain queue refused a handle because its consumer was gone while
    /// a command was still in hand: a construction-order violation. The
    /// dispatcher fails and accepts nothing further.
    pub fn queue_unavailable(&mut self) -> (fault: Fault)
        requires
            old(self).accepts_commands(),
        ensures
            final(self).phase() is Failed,
            !final(self).accepts_commands(),
            final(self).admitted_count() == old(self).admitted_count(),
            fault == Fault::DrainClosed,
    {
        self.phase = DispatcherPhase::Failed;
        Fault::DrainClosed
    }

    /// The command source is exhausted: no further command will ever be
    /// accepted; what was admitted is left to the drain.
    pub fn source_exhausted(&mut self)
        requires
            old(self).accepts_commands(),
        ensures
            final(self).phase() is Draining,
            !final(self).accepts_commands(),
            final(self).admitted_count() == old(self).admitted_count(),
    {
        self.phase = DispatcherPhase::Draining;
    }
}

/// Where the drain manager stands.
#[derive(Clone, Copy, PartialEq, Eq, Structural, Debug)]
pub enum DrainStatus {
    /// Still awaiting batches from the drain queue.
    Draining,
    /// The queue is closed and every admitted batch succeeded.
    Complete,
    /// A batch faulted; draining stopped there, with that fault.
    Failed(Fault),
}

/// The drain manager's state: how many batches it has seen succeed and
/// whether it is still draining.
pub struct DrainManager {
    status: DrainStatus,
    drained: u64,
}

impl DrainManager {
    /// The status the drain manager is in.
    pub closed spec fn status(self) -> DrainStatus {
        self.status
    }

    /// How many batches have been awaited and found faultless.
    pub closed spec fn drained_count(self) -> u64 {
        self.drained
    }

    /// Whether the manager still takes handles from the queue.
    pub open spec fn is_draining(self) -> bool {
        self.status() is Draining
    }

    /// A drain manager that has drained nothing yet.
    pub fn new() -> (manager: DrainManager)
        ensures
            manager.is_draining(),
            manager.drained_count() == 0,
    {
        DrainManager { status: DrainStatus::Draining, drained: 0 }
    }

    /// The batch at the front of the queue resolved. A faultless batch is
    /// counted and draining goes on; a faulted one ends the drain at once
    /// with that fault, and nothing further is awaited.
    pub fn batch_resolved(&mut self, outcome: Result<(), Fault>) -> (draining: bool)
        requires
            old(self).is_draining(),
            old(self).drained_count() < u64::MAX,
        ensures
            draining == final(self).is_draining(),
            outcome is Ok ==> final(self).is_draining() && final(self).drained_count() == old(
                self,
            ).drained_count() + 1,
            outcome matches Err(fault) ==> final(self).status() == DrainStatus::Failed(fault)
                && final(self).drained_count() == old(self).drained_count(),
    {
        match outcome {
            Ok(_) => {
                self.drained = self.drained + 1;
                true
            },
            Err(fault) => {
                self.status = DrainStatus::Failed(fault);
                false
            },
        }
    }

    /// Reports the status the drain manager is in.
    pub fn current_status(&self) -> (status: DrainStatus)
        ensures
            status == self.status(),
    {
        self.status
    }

    /// Reports how many batches have been awaited and found faultless.
    pub fn drained(&self) -> (count: u64)
        ensures
            count == self.drained_count(),
    {
        self.drained
    }

    /// The run's verdict once draining has ended: success after a
    /// complete drain, the stopping fault after a failed one.
    pub fn verdict(&self) -> (result: Result<(), Fault>)
        requires
            !self.is_draining(),
        ensures
            self.status() is Complete ==> result == Ok::<(), Fault>(()),
            self.status() matches DrainStatus::Failed(fault) ==> result == Err::<(), Fault>(
                fault,
            ),
    {
        match self.status {
            DrainStatus::Complete => Ok(()),
            DrainStatus::Failed(fault) => Err(fault),
            DrainStatus::Draining => {
                proof {
                    assert(false);
                }
                Err(Fault::DrainClosed)
            },
        }
    }

    /// The drain queue is closed and empty: every admitted batch has been
    /// awaited and none faulted, so the drain is complete.
    pub fn queue_drained(&mut self)
        requires
            old(self).is_draining(),
        ensures
            final(self).status() is Complete,
            final(self).drained_count() == old(self).drained_count(),
    {
        self.status = DrainStatus::Complete;
    }
}

/// Drains a run's batches in admission order, fail-fast: a faultless run
/// is drained whole and completes; otherwise draining stops exactly at the
/// first faulted batch — later batches are not awaited — and that batch's
/// fault is the run's.
pub fn drain_run(batch_outcomes: &Vec<Result<(), Fault>>) -> (manager: DrainManager)
    requires
        batch_outcomes@.len() < u64::MAX,
    ensures
        all_ok(batch_outcomes@) ==> manager.status() is Complete && manager.drained_count()
            == batch_outcomes@.len(),
        !all_ok(batch_outcomes@) ==> manager.status() == DrainStatus::Failed(
            first_fault(batch_outcomes@)->Err_0,
        ) && manager.drained_count() == first_fault_at(batch_outcomes@),
{
    let mut manager = DrainManager::new();
    let mut k: usize = 0;
    while k < batch_outcomes.len()
        invariant
            k <= batch_outcomes@.len(),
            batch_outcomes@.len() < u64::MAX,
            forall|j: int| 0 <= j < k ==> batch_outcomes@[j] is Ok,
            manager.is_draining(),
            manager.drained_count() == k,
        decreases batch_outcomes@.len() - k,
    {
        let draining = manager.batch_resolved(batch_outcomes[k]);
        if !draining {
            proof {
                assert(!all_ok(batch_outcomes@));
                lemma_first_fault_at(batch_outcomes@);
                assert(first_fault_at(batch_outcomes@) == k);
            }
            return manager;
        }
        k = k + 1;
    }
    proof {
        assert(all_ok(batch_outcomes@));
    }
    manager.queue_drained();
    manager
}

/// A failed dispatcher admits nothing: once an admission fault has been
/// raised, no later command is ever accepted.
pub proof fn lemma_failed_dispatcher_admits_nothing(dispatcher: Dispatcher)
    requires
        dispatcher.phase() is Failed,
    ensures
        !dispatcher.accepts_commands(),
{
}

/// A delivery fault sinks the run: when some worker of an admitted batch
/// could not deliver its result, that batch's outcome is a fault, and the
/// run's fail-fast verdict over its batches is a fault as well — the run
/// cannot end in success.
pub proof fn lemma_delivery_fault_fails_run(
    worker_outcomes: Seq<Result<(), Fault>>,
    batch_outcomes: Seq<Result<(), Fault>>,
    admitted_at: int,
)
    requires
        !all_ok(worker_outcomes),
        0 <= admitted_at < batch_outcomes.len(),
        batch_outcomes[admitted_at] == first_fault(worker_outcomes),
    ensures
        batch_outcomes[admitted_at] is Err,
        first_fault(batch_outcomes) is Err,
{
    lemma_first_fault_ok(worker_outcomes);
    lemma_first_fault_ok(batch_outcomes);
    assert(!all_ok(batch_outcomes));
}

} // verus!
