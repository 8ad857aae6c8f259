//! What passes between the supervisor and the code that drives it: the
//! actions that the supervisor asks for, the events that come back, and the
//! resources that it keeps account of.

use crate::config::{Epoch, ReconfigureMessage, ReconfigureMessageView};
use vstd::prelude::*;

verus! {

/// Handle under which a metrics registry is known to the registry service.
pub type RegistryId = u128;

/// The steps of one cycle of the supervisor, in the order they are taken.
#[derive(Clone, Copy, Debug, PartialEq, Eq, Structural)]
pub enum Phase {
    /// Opening the metrics and storage scopes of the epoch.
    Provision,
    /// Starting the primary and the workers.
    Spawn,
    /// Giving the generation time to bind its listeners.
    Settle,
    /// Waiting for a reconfiguration request.
    Await,
    /// Telling the generation to shut down and waiting until it has.
    Drain,
    /// Releasing the storage and letting the ports become free.
    Release,
    /// Taking over the identity, committee and worker topology of the next
    /// epoch.
    Adopt,
}

/// Why a cycle failed.
#[derive(Clone, Copy, Debug, PartialEq, Eq, Structural)]
pub enum FailureCause {
    /// The metrics or storage scope could not be opened.
    ProvisionFailed,
    /// The primary or a worker could not be started.
    SpawnFailed,
    /// The generation came up without a primary task, or without exactly one
    /// task for each worker.
    PartialGeneration,
    /// The shutdown notification could not be delivered.
    ShutdownUndeliverable,
    /// The outcomes reported do not account for every task of the generation.
    DrainIncomplete,
    /// This many tasks of the generation did not exit cleanly.
    TaskFailed { failed: usize },
    /// The committee to adopt does not have a later epoch than the current
    /// one.
    EpochNotAdvanced,
    /// An event arrived that the current phase does not wait for.
    UnexpectedEvent,
}

/// Whether the supervisor is still at work.
#[derive(Clone, Copy, Debug, PartialEq, Eq, Structural)]
pub enum Status {
    Running,
    /// The reconfiguration channel was closed: the supervisor has returned.
    Terminated,
    /// The cycle failed: the supervisor has given up.
    Failed(FailureCause),
}

/// The diagnostic of a failed cycle.
#[derive(Clone, Copy, Debug, PartialEq, Eq, Structural)]
pub struct Failure {
    pub phase: Phase,
    pub epoch: Epoch,
    pub cause: FailureCause,
}

/// How a task of a generation ended.
#[derive(Clone, Copy, Debug, PartialEq, Eq, Structural)]
pub enum TaskOutcome {
    Exited,
    Panicked,
    Cancelled,
}

/// The metrics registry of one epoch, as registered with the registry
/// service.
#[derive(Clone, Copy, Debug, PartialEq, Eq, Structural)]
pub struct EpochMetricsScope {
    pub epoch: Epoch,
    pub registry_id: RegistryId,
}

/// The open storage of one epoch.
#[derive(Clone, Copy, Debug, PartialEq, Eq, Structural)]
pub struct EpochStorageScope {
    pub epoch: Epoch,
}

/// The live tasks of one epoch's primary and workers.
#[derive(Clone, Copy, Debug, PartialEq, Eq, Structural)]
pub struct GenerationTaskSet {
    pub epoch: Epoch,
    pub primary_handles: usize,
    pub worker_handles: usize,
}

/// What the driver reports back to the supervisor.
#[derive(Clone, Debug, PartialEq, Eq)]
pub enum Event {
    /// The metrics registry was registered under `registry_id` and the
    /// storage was opened.
    Provisioned { registry_id: RegistryId },
    ProvisionFailed,
    /// The generation was started and runs this many tasks.
    Spawned { primary_handles: usize, worker_handles: usize },
    SpawnFailed,
    /// The bootstrap delay has passed.
    Settled,
    /// The reconfiguration channel handed out its next request.
    Reconfigure(ReconfigureMessage),
    /// The reconfiguration channel was closed.
    ChannelClosed,
    ShutdownDelivered,
    ShutdownUndeliverable,
    /// Every task that was waited for has ended; one outcome for each.
    Drained(Vec<TaskOutcome>),
    /// The storage was released and the cool-down delay has passed.
    Released,
    /// The shared worker cache holds the new topology and the old metrics
    /// registry is gone from the registry service.
    Adopted,
}

/// What an [`Event`] is.
pub enum EventView {
    Provisioned { registry_id: RegistryId },
    ProvisionFailed,
    Spawned { primary_handles: usize, worker_handles: usize },
    SpawnFailed,
    Settled,
    Reconfigure(ReconfigureMessageView),
    ChannelClosed,
    ShutdownDelivered,
    ShutdownUndeliverable,
    Drained(Seq<TaskOutcome>),
    Released,
    Adopted,
}

impl View for Event {
    type V = EventView;

    open spec fn view(&self) -> EventView {
        match self {
            Event::Provisioned { registry_id } => EventView::Provisioned {
                registry_id: *registry_id,
            },
            Event::ProvisionFailed => EventView::ProvisionFailed,
            Event::Spawned { primary_handles, worker_handles } => EventView::Spawned {
                primary_handles: *primary_handles,
                worker_handles: *worker_handles,
            },
            Event::SpawnFailed => EventView::SpawnFailed,
            Event::Settled => EventView::Settled,
            Event::Reconfigure(message) => EventView::Reconfigure(message@),
            Event::ChannelClosed => EventView::ChannelClosed,
            Event::ShutdownDelivered => EventView::ShutdownDelivered,
            Event::ShutdownUndeliverable => EventView::ShutdownUndeliverable,
            Event::Drained(outcomes) => EventView::Drained(outcomes@),
            Event::Released => EventView::Released,
            Event::Adopted => EventView::Adopted,
        }
    }
}

/// The events of a list, in order.
pub open spec fn events_view(events: Seq<Event>) -> Seq<EventView> {
    events.map_values(|e: Event| e@)
}

/// What the supervisor asks its driver to do next.
#[derive(Clone, Copy, Debug, PartialEq, Eq, Structural)]
pub enum Action {
    /// Register a fresh metrics registry with the registry service and open
    /// the storage of `epoch` at the supervisor's storage path; answer with
    /// `Provisioned` or `ProvisionFailed`.
    Provision { epoch: Epoch },
    /// Start the primary, with consensus enabled, and the workers of `epoch`
    /// under the supervisor's identity. Give them a fresh handle to the
    /// supervisor's committee, which no other generation gets, and the one
    /// handle to the worker cache that all generations share. Answer with
    /// `Spawned` or `SpawnFailed`.
    Spawn { epoch: Epoch },
    /// Sleep for `delay_secs`; answer with `Settled`.
    Settle { delay_secs: u64 },
    /// Take the next request from the reconfiguration channel; answer with
    /// `Reconfigure` or, if the channel is closed, `ChannelClosed`.
    Await,
    /// After `delay_secs`, post the shutdown notification to the
    /// administrative endpoint of the primary, which passes it on to its
    /// workers; answer with `ShutdownDelivered` or `ShutdownUndeliverable`.
    NotifyShutdown { port: u16, attempt: u32, delay_secs: u64 },
    /// Wait, without a time limit, until every task of the generation has
    /// ended; answer with `Drained` and the outcome of each.
    Join { primary_handles: usize, worker_handles: usize },
    /// Release the storage of `epoch`, then sleep for `delay_secs`; answer
    /// with `Released`.
    Release { epoch: Epoch, delay_secs: u64 },
    /// Swap the worker topology of the pending request, which is that of
    /// `epoch`, into the shared worker cache, and remove the registry `evict`
    /// from the registry service; answer with `Adopted`.
    Adopt { epoch: Epoch, evict: RegistryId },
    /// Return: the supervisor is done.
    Stop,
    /// Give up with this diagnostic.
    Abort(Failure),
}

/// How many of `outcomes` are not a clean exit.
pub open spec fn failed_tasks(outcomes: Seq<TaskOutcome>) -> nat
    decreases outcomes.len(),
{
    if outcomes.len() == 0 {
        0
    } else {
        failed_tasks(outcomes.drop_last()) + if outcomes.last() == TaskOutcome::Exited {
            0nat
        } else {
            1nat
        }
    }
}

/// Counts the tasks that did not exit cleanly.
pub fn count_failed(outcomes: &Vec<TaskOutcome>) -> (failed: usize)
    ensures
        failed == failed_tasks(outcomes@),
{
    let mut failed: usize = 0;
    let mut i: usize = 0;
    while i < outcomes.len()
        invariant
            i <= outcomes.len(),
            failed == failed_tasks(outcomes@.take(i as int)),
            failed <= i,
        decreases outcomes.len() - i,
    {
        assert(outcomes@.take(i + 1).drop_last() == outcomes@.take(i as int));
        match outcomes[i] {
            TaskOutcome::Exited => {},
            _ => {
                failed = failed + 1;
            },
        }
        i = i + 1;
    }
    assert(outcomes@.take(i as int) == outcomes@);
    failed
}

} // verus!
