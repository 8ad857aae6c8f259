//! The supervisor as a mathematical state machine: what its state is, which
//! states are well formed, how an event changes the state, and which action a
//! state is waiting on.

use crate::config::{
    CommitteeView, Epoch, NodeIdentityView, Parameters, ReconfigureMessageView, WorkerCacheView,
};
use crate::protocol::{
    failed_tasks, Action, EpochMetricsScope, EpochStorageScope, EventView, Failure, FailureCause,
    GenerationTaskSet, Phase, Status,
};
use vstd::prelude::*;

verus! {

/// Everything the supervisor knows at one instant.
pub struct RestarterState {
    /// The step of the cycle that is under way; if the supervisor has
    /// halted, the step in which it did.
    pub phase: Phase,
    pub status: Status,
    /// The keys of the current generation.
    pub identity: NodeIdentityView,
    /// The committee of the current generation. Its epoch is the current
    /// epoch.
    pub committee: CommitteeView,
    /// The snapshot that the shared worker cache holds.
    pub worker_cache: WorkerCacheView,
    pub storage_base_path: Seq<char>,
    pub parameters: Parameters,
    /// The metrics registry that is registered with the registry service.
    pub metrics: Option<EpochMetricsScope>,
    /// The storage that is open.
    pub storage: Option<EpochStorageScope>,
    /// The generation whose tasks have been started and have not all been
    /// seen to end.
    pub tasks: Option<GenerationTaskSet>,
    /// The request that is being carried out.
    pub pending: Option<ReconfigureMessageView>,
    /// Tries made so far to deliver the shutdown notification, the one under
    /// way included.
    pub shutdown_attempts: u32,
    /// Whether the shutdown notification has been delivered.
    pub shutdown_delivered: bool,
}

/// A generation is fully formed when it has a primary task and exactly one
/// task for each of the node's workers.
pub open spec fn fully_formed(tasks: GenerationTaskSet, workers: nat) -> bool {
    tasks.primary_handles >= 1 && tasks.worker_handles == workers
}

impl RestarterState {
    /// The current epoch: that of the current committee.
    pub open spec fn epoch(self) -> Epoch {
        self.committee.epoch
    }

    pub open spec fn is_running(self) -> bool {
        self.status == Status::Running
    }

    /// The number of workers that the node runs.
    pub open spec fn workers(self) -> nat {
        self.identity.worker_ids_and_keypairs.len()
    }

    /// This state, given up for `cause`.
    pub open spec fn fail(self, cause: FailureCause) -> RestarterState {
        RestarterState { status: Status::Failed(cause), ..self }
    }

    /// Which resources are held.
    pub open spec fn holds(self, metrics: bool, storage: bool, tasks: bool, pending: bool) -> bool {
        &&& self.metrics.is_some() == metrics
        &&& self.storage.is_some() == storage
        &&& self.tasks.is_some() == tasks
        &&& self.pending.is_some() == pending
    }

    /// What holds of the resources while the supervisor is at work in
    /// `self.phase`.
    pub open spec fn phase_invariant(self) -> bool {
        match self.phase {
            Phase::Provision => self.holds(false, false, false, false),
            Phase::Spawn => self.holds(true, true, false, false),
            Phase::Settle | Phase::Await => {
                &&& self.holds(true, true, true, false)
                &&& fully_formed(self.tasks.unwrap(), self.workers())
            },
            Phase::Drain => {
                &&& self.holds(true, true, true, true)
                &&& fully_formed(self.tasks.unwrap(), self.workers())
                &&& self.shutdown_attempts >= 1
            },
            Phase::Release => self.holds(true, true, false, true),
            Phase::Adopt => {
                &&& self.holds(true, false, false, true)
                &&& self.pending.unwrap().committee.epoch > self.epoch()
            },
        }
    }

    /// The states that the supervisor can be in. Every scope and every task
    /// set that exists belongs to the current epoch; while the supervisor is
    /// at work, the phase decides which of them exist.
    pub open spec fn well_formed(self) -> bool {
        &&& self.metrics is Some ==> self.metrics.unwrap().epoch == self.epoch()
        &&& self.storage is Some ==> self.storage.unwrap().epoch == self.epoch()
        &&& self.tasks is Some ==> self.tasks.unwrap().epoch == self.epoch()
        &&& self.phase != Phase::Drain ==> self.shutdown_attempts == 0 && !self.shutdown_delivered
        &&& match self.status {
            Status::Running => self.phase_invariant(),
            Status::Terminated => self.phase == Phase::Await && self.phase_invariant(),
            Status::Failed(_) => true,
        }
    }

    /// The diagnostic of this state, if it has failed for `cause`.
    pub open spec fn failure(self, cause: FailureCause) -> Failure {
        Failure { phase: self.phase, epoch: self.epoch(), cause }
    }

    /// The action that the supervisor is waiting on.
    pub open spec fn action(self) -> Action {
        match self.status {
            Status::Terminated => Action::Stop,
            Status::Failed(cause) => Action::Abort(self.failure(cause)),
            Status::Running => match self.phase {
                Phase::Provision => Action::Provision { epoch: self.epoch() },
                Phase::Spawn => Action::Spawn { epoch: self.epoch() },
                Phase::Settle => Action::Settle {
                    delay_secs: self.parameters.bootstrap_delay_secs,
                },
                Phase::Await => Action::Await,
                Phase::Drain => if self.shutdown_delivered {
                    Action::Join {
                        primary_handles: self.tasks.unwrap().primary_handles,
                        worker_handles: self.tasks.unwrap().worker_handles,
                    }
                } else {
                    Action::NotifyShutdown {
                        port: self.parameters.primary_network_admin_server_port,
                        attempt: self.shutdown_attempts,
                        delay_secs: if self.shutdown_attempts <= 1 {
                            0
                        } else {
                            self.parameters.shutdown_retry_delay_secs
                        },
                    }
                },
                Phase::Release => Action::Release {
                    epoch: self.epoch(),
                    delay_secs: self.parameters.cooldown_delay_secs,
                },
                Phase::Adopt => Action::Adopt {
                    epoch: self.pending.unwrap().committee.epoch,
                    evict: self.metrics.unwrap().registry_id,
                },
            },
        }
    }
}

/// The state in which the supervisor starts: about to provision the epoch of
/// `committee`, holding nothing.
pub open spec fn initial(
    identity: NodeIdentityView,
    committee: CommitteeView,
    worker_cache: WorkerCacheView,
    storage_base_path: Seq<char>,
    parameters: Parameters,
) -> RestarterState {
    RestarterState {
        phase: Phase::Provision,
        status: Status::Running,
        identity,
        committee,
        worker_cache,
        storage_base_path,
        parameters,
        metrics: None,
        storage: None,
        tasks: None,
        pending: None,
        shutdown_attempts: 0,
        shutdown_delivered: false,
    }
}

/// Provision: the scopes of the current epoch come into being.
pub open spec fn on_provision(s: RestarterState, event: EventView) -> RestarterState {
    match event {
        EventView::Provisioned { registry_id } => RestarterState {
            phase: Phase::Spawn,
            metrics: Some(EpochMetricsScope { epoch: s.epoch(), registry_id }),
            storage: Some(EpochStorageScope { epoch: s.epoch() }),
            ..s
        },
        EventView::ProvisionFailed => s.fail(FailureCause::ProvisionFailed),
        _ => s.fail(FailureCause::UnexpectedEvent),
    }
}

/// Spawn: the tasks that were started are recorded, and the cycle goes on
/// only with a fully formed generation.
pub open spec fn on_spawn(s: RestarterState, event: EventView) -> RestarterState {
    match event {
        EventView::Spawned { primary_handles, worker_handles } => {
            let tasks = GenerationTaskSet { epoch: s.epoch(), primary_handles, worker_handles };
            let spawned = RestarterState { tasks: Some(tasks), ..s };
            if fully_formed(tasks, s.workers()) {
                RestarterState { phase: Phase::Settle, ..spawned }
            } else {
                spawned.fail(FailureCause::PartialGeneration)
            }
        },
        EventView::SpawnFailed => s.fail(FailureCause::SpawnFailed),
        _ => s.fail(FailureCause::UnexpectedEvent),
    }
}

/// Settle: once the bootstrap delay has passed, requests are accepted.
pub open spec fn on_settle(s: RestarterState, event: EventView) -> RestarterState {
    match event {
        EventView::Settled => RestarterState { phase: Phase::Await, ..s },
        _ => s.fail(FailureCause::UnexpectedEvent),
    }
}

/// Await: a request starts the drain of the running generation; the closing
/// of the channel ends the supervisor, which leaves the generation as it is.
pub open spec fn on_await(s: RestarterState, event: EventView) -> RestarterState {
    match event {
        EventView::Reconfigure(message) => RestarterState {
            phase: Phase::Drain,
            pending: Some(message),
            shutdown_attempts: 1,
            shutdown_delivered: false,
            ..s
        },
        EventView::ChannelClosed => RestarterState { status: Status::Terminated, ..s },
        _ => s.fail(FailureCause::UnexpectedEvent),
    }
}

/// Drain, while the notification is on its way: an undeliverable
/// notification is tried again as long as the settings allow.
pub open spec fn on_notify(s: RestarterState, event: EventView) -> RestarterState {
    match event {
        EventView::ShutdownDelivered => RestarterState { shutdown_delivered: true, ..s },
        EventView::ShutdownUndeliverable => if s.shutdown_attempts
            < s.parameters.shutdown_attempts {
            RestarterState { shutdown_attempts: (s.shutdown_attempts + 1) as u32, ..s }
        } else {
            s.fail(FailureCause::ShutdownUndeliverable)
        },
        _ => s.fail(FailureCause::UnexpectedEvent),
    }
}

/// Drain, while the tasks are waited for: the cycle goes on only if every
/// task of the generation is accounted for and every one exited cleanly.
pub open spec fn on_join(s: RestarterState, event: EventView) -> RestarterState {
    match event {
        EventView::Drained(outcomes) => if outcomes.len() != s.tasks.unwrap().primary_handles
            + s.tasks.unwrap().worker_handles {
            s.fail(FailureCause::DrainIncomplete)
        } else {
            let drained = RestarterState { tasks: None, ..s };
            if failed_tasks(outcomes) > 0 {
                drained.fail(FailureCause::TaskFailed { failed: failed_tasks(outcomes) as usize })
            } else {
                RestarterState {
                    phase: Phase::Release,
                    shutdown_attempts: 0,
                    shutdown_delivered: false,
                    ..drained
                }
            }
        },
        _ => s.fail(FailureCause::UnexpectedEvent),
    }
}

/// Release: the storage is gone; the adoption goes ahead only towards a
/// later epoch.
pub open spec fn on_release(s: RestarterState, event: EventView) -> RestarterState {
    match event {
        EventView::Released => {
            let released = RestarterState { phase: Phase::Adopt, storage: None, ..s };
            if s.pending.unwrap().committee.epoch > s.epoch() {
                released
            } else {
                released.fail(FailureCause::EpochNotAdvanced)
            }
        },
        _ => s.fail(FailureCause::UnexpectedEvent),
    }
}

/// Adopt: identity, committee and worker topology are those of the request,
/// the metrics registry of the old epoch is gone, and the next cycle begins.
pub open spec fn on_adopt(s: RestarterState, event: EventView) -> RestarterState {
    match event {
        EventView::Adopted => RestarterState {
            phase: Phase::Provision,
            identity: s.pending.unwrap().identity,
            committee: s.pending.unwrap().committee,
            worker_cache: s.pending.unwrap().worker_cache,
            metrics: None,
            pending: None,
            ..s
        },
        _ => s.fail(FailureCause::UnexpectedEvent),
    }
}

/// The state after `event`. A supervisor that has halted stays as it is.
pub open spec fn next(s: RestarterState, event: EventView) -> RestarterState {
    if !s.is_running() {
        s
    } else {
        match s.phase {
            Phase::Provision => on_provision(s, event),
            Phase::Spawn => on_spawn(s, event),
            Phase::Settle => on_settle(s, event),
            Phase::Await => on_await(s, event),
            Phase::Drain => if s.shutdown_delivered {
                on_join(s, event)
            } else {
                on_notify(s, event)
            },
            Phase::Release => on_release(s, event),
            Phase::Adopt => on_adopt(s, event),
        }
    }
}

/// The state after `events`, taken in order.
pub open spec fn run(s: RestarterState, events: Seq<EventView>) -> RestarterState
    decreases events.len(),
{
    if events.len() == 0 {
        s
    } else {
        run(next(s, events.first()), events.drop_first())
    }
}

/// The actions that the supervisor asks for while it is fed `events`: the one
/// it starts with, then one after each event, up to and including the one
/// with which it halts.
pub open spec fn trace(s: RestarterState, events: Seq<EventView>) -> Seq<Action>
    decreases events.len(),
{
    if events.len() == 0 || !s.is_running() {
        seq![s.action()]
    } else {
        seq![s.action()] + trace(next(s, events.first()), events.drop_first())
    }
}

} // verus!
