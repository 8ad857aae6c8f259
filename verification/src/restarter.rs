//! The supervisor that keeps a node running and restarts it every time the
//! committee changes.

use crate::config::{
    Committee, Epoch, NodeIdentity, Parameters, ReconfigureMessage, ReconfigureMessageView,
    WorkerCache,
};
use crate::layout::{shutdown_url, shutdown_url_spec, storage_path, storage_path_spec};
use crate::machine::{initial, next, run, trace, RestarterState};
use crate::protocol::{
    count_failed, events_view, Action, EpochMetricsScope, EpochStorageScope, Event, Failure,
    FailureCause, GenerationTaskSet, Phase, Status,
};
use vstd::prelude::*;

verus! {

/// The view of a request that may be there.
pub open spec fn pending_view(pending: Option<ReconfigureMessage>) -> Option<
    ReconfigureMessageView,
> {
    match pending {
        Some(message) => Some(message@),
        None => None,
    }
}

/// Drives one generation of the node at a time through the cycle of
/// provisioning, spawning, settling, awaiting, draining, releasing and
/// adopting. It does no outside work itself: it names the work to do as an
/// [`Action`] and takes the result as an [`Event`].
pub struct NodeRestarter {
    phase: Phase,
    status: Status,
    identity: NodeIdentity,
    committee: Committee,
    worker_cache: WorkerCache,
    storage_base_path: String,
    parameters: Parameters,
    metrics: Option<EpochMetricsScope>,
    storage: Option<EpochStorageScope>,
    tasks: Option<GenerationTaskSet>,
    pending: Option<ReconfigureMessage>,
    shutdown_attempts: u32,
    shutdown_delivered: bool,
}

impl View for NodeRestarter {
    type V = RestarterState;

    closed spec fn view(&self) -> RestarterState {
        RestarterState {
            phase: self.phase,
            status: self.status,
            identity: self.identity@,
            committee: self.committee@,
            worker_cache: self.worker_cache@,
            storage_base_path: self.storage_base_path@,
            parameters: self.parameters,
            metrics: self.metrics,
            storage: self.storage,
            tasks: self.tasks,
            pending: pending_view(self.pending),
            shutdown_attempts: self.shutdown_attempts,
            shutdown_delivered: self.shutdown_delivered,
        }
    }
}

impl NodeRestarter {
    #[verifier::type_invariant]
    closed spec fn inv(self) -> bool {
        self@.well_formed()
    }

    /// A supervisor that is about to provision the epoch of `committee`.
    pub fn new(
        identity: NodeIdentity,
        committee: Committee,
        worker_cache: WorkerCache,
        storage_base_path: String,
        parameters: Parameters,
    ) -> (restarter: NodeRestarter)
        ensures
            restarter@ == initial(
                identity@,
                committee@,
                worker_cache@,
                storage_base_path@,
                parameters,
            ),
            restarter@.well_formed(),
    {
        NodeRestarter {
            phase: Phase::Provision,
            status: Status::Running,
            identity,
            committee,
            worker_cache,
            storage_base_path,
            parameters,
            metrics: None,
            storage: None,
            tasks: None,
            pending: None,
            shutdown_attempts: 0,
            shutdown_delivered: false,
        }
    }

    /// The action that the supervisor is waiting on.
    pub fn action(&self) -> (action: Action)
        ensures
            action == self@.action(),
    {
        proof {
            use_type_invariant(self);
        }
        match self.status {
            Status::Terminated => Action::Stop,
            Status::Failed(cause) => Action::Abort(
                Failure { phase: self.phase, epoch: self.committee.epoch(), cause },
            ),
            Status::Running => match self.phase {
                Phase::Provision => Action::Provision { epoch: self.committee.epoch() },
                Phase::Spawn => Action::Spawn { epoch: self.committee.epoch() },
                Phase::Settle => Action::Settle {
                    delay_secs: self.parameters.bootstrap_delay_secs,
                },
                Phase::Await => Action::Await,
                Phase::Drain => if self.shutdown_delivered {
                    let tasks = self.tasks.unwrap();
                    Action::Join {
                        primary_handles: tasks.primary_handles,
                        worker_handles: tasks.worker_handles,
                    }
                } else {
                    Action::NotifyShutdown {
                        port: self.parameters.primary_network_admin_server_port,
                        attempt: self.shutdown_attempts,
                        delay_secs: if self.shutdown_attempts <= 1 {
                            0
                        } else {
                            self.parameters.shutdown_retry_delay_secs
                        },
                    }
                },
                Phase::Release => Action::Release {
                    epoch: self.committee.epoch(),
                    delay_secs: self.parameters.cooldown_delay_secs,
                },
                Phase::Adopt => Action::Adopt {
                    epoch: self.pending.as_ref().unwrap().committee.epoch(),
                    evict: self.metrics.unwrap().registry_id,
                },
            },
        }
    }

    fn fail(self, cause: FailureCause) -> (failed: NodeRestarter)
        ensures
            failed@ == self@.fail(cause),
    {
        proof {
            use_type_invariant(&self);
        }
        NodeRestarter { status: Status::Failed(cause), ..self }
    }

    fn on_provision(self, event: Event) -> (after: NodeRestarter)
        requires
            self@.is_running(),
            self@.phase == Phase::Provision,
        ensures
            after@ == crate::machine::on_provision(self@, event@),
    {
        proof {
            use_type_invariant(&self);
        }
        match event {
            Event::Provisioned { registry_id } => {
                let epoch = self.committee.epoch();
                NodeRestarter {
                    phase: Phase::Spawn,
                    metrics: Some(EpochMetricsScope { epoch, registry_id }),
                    storage: Some(EpochStorageScope { epoch }),
                    ..self
                }
            },
            Event::ProvisionFailed => self.fail(FailureCause::ProvisionFailed),
            _ => self.fail(FailureCause::UnexpectedEvent),
        }
    }

    fn on_spawn(self, event: Event) -> (after: NodeRestarter)
        requires
            self@.is_running(),
            self@.phase == Phase::Spawn,
        ensures
            after@ == crate::machine::on_spawn(self@, event@),
    {
        proof {
            use_type_invariant(&self);
        }
        match event {
            Event::Spawned { primary_handles, worker_handles } => {
                let tasks = GenerationTaskSet {
                    epoch: self.committee.epoch(),
                    primary_handles,
                    worker_handles,
                };
                let workers = self.identity.worker_ids_and_keypairs.len();
                if primary_handles >= 1 && worker_handles == workers {
                    NodeRestarter { phase: Phase::Settle, tasks: Some(tasks), ..self }
                } else {
                    NodeRestarter {
                        status: Status::Failed(FailureCause::PartialGeneration),
                        tasks: Some(tasks),
                        ..self
                    }
                }
            },
            Event::SpawnFailed => self.fail(FailureCause::SpawnFailed),
            _ => self.fail(FailureCause::UnexpectedEvent),
        }
    }

    fn on_settle(self, event: Event) -> (after: NodeRestarter)
        requires
            self@.is_running(),
            self@.phase == Phase::Settle,
        ensures
            after@ == crate::machine::on_settle(self@, event@),
    {
        proof {
            use_type_invariant(&self);
        }
        match event {
            Event::Settled => NodeRestarter { phase: Phase::Await, ..self },
            _ => self.fail(FailureCause::UnexpectedEvent),
        }
    }

    fn on_await(self, event: Event) -> (after: NodeRestarter)
        requires
            self@.is_running(),
            self@.phase == Phase::Await,
        ensures
            after@ == crate::machine::on_await(self@, event@),
    {
        proof {
            use_type_invariant(&self);
        }
        match event {
            Event::Reconfigure(message) => NodeRestarter {
                phase: Phase::Drain,
                pending: Some(message),
                shutdown_attempts: 1,
                shutdown_delivered: false,
                ..self
            },
            Event::ChannelClosed => NodeRestarter { status: Status::Terminated, ..self },
            _ => self.fail(FailureCause::UnexpectedEvent),
        }
    }

    fn on_notify(self, event: Event) -> (after: NodeRestarter)
        requires
            self@.is_running(),
            self@.phase == Phase::Drain,
            !self@.shutdown_delivered,
        ensures
            after@ == crate::machine::on_notify(self@, event@),
    {
        proof {
            use_type_invariant(&self);
        }
        match event {
            Event::ShutdownDelivered => NodeRestarter { shutdown_delivered: true, ..self },
            Event::ShutdownUndeliverable => if self.shutdown_attempts
                < self.parameters.shutdown_attempts {
                NodeRestarter { shutdown_attempts: self.shutdown_attempts + 1, ..self }
            } else {
                self.fail(FailureCause::ShutdownUndeliverable)
            },
            _ => self.fail(FailureCause::UnexpectedEvent),
        }
    }

    fn on_join(self, event: Event) -> (after: NodeRestarter)
        requires
            self@.is_running(),
            self@.phase == Phase::Drain,
            self@.shutdown_delivered,
        ensures
            after@ == crate::machine::on_join(self@, event@),
    {
        proof {
            use_type_invariant(&self);
        }
        match event {
            Event::Drained(outcomes) => {
                let tasks = self.tasks.unwrap();
                let accounted = outcomes.len() >= tasks.primary_handles && outcomes.len()
                    - tasks.primary_handles == tasks.worker_handles;
                if !accounted {
                    self.fail(FailureCause::DrainIncomplete)
                } else {
                    let failed = count_failed(&outcomes);
                    if failed > 0 {
                        NodeRestarter {
                            status: Status::Failed(FailureCause::TaskFailed { failed }),
                            tasks: None,
                            ..self
                        }
                    } else {
                        NodeRestarter {
                            phase: Phase::Release,
                            tasks: None,
                            shutdown_attempts: 0,
                            shutdown_delivered: false,
                            ..self
                        }
                    }
                }
            },
            _ => self.fail(FailureCause::UnexpectedEvent),
        }
    }

    fn on_release(self, event: Event) -> (after: NodeRestarter)
        requires
            self@.is_running(),
            self@.phase == Phase::Release,
        ensures
            after@ == crate::machine::on_release(self@, event@),
    {
        proof {
            use_type_invariant(&self);
        }
        match event {
            Event::Released => {
                let advanced = self.pending.as_ref().unwrap().committee.epoch()
                    > self.committee.epoch();
                if advanced {
                    NodeRestarter { phase: Phase::Adopt, storage: None, ..self }
                } else {
                    NodeRestarter {
                        phase: Phase::Adopt,
                        status: Status::Failed(FailureCause::EpochNotAdvanced),
                        storage: None,
                        ..self
                    }
                }
            },
            _ => self.fail(FailureCause::UnexpectedEvent),
        }
    }

    fn on_adopt(self, event: Event) -> (after: NodeRestarter)
        requires
            self@.is_running(),
            self@.phase == Phase::Adopt,
        ensures
            after@ == crate::machine::on_adopt(self@, event@),
    {
        proof {
            use_type_invariant(&self);
        }
        match event {
            Event::Adopted => {
                let message = self.pending.unwrap();
                NodeRestarter {
                    phase: Phase::Provision,
                    identity: message.identity,
                    committee: message.committee,
                    worker_cache: message.worker_cache,
                    metrics: None,
                    pending: None,
                    ..self
                }
            },
            _ => self.fail(FailureCause::UnexpectedEvent),
        }
    }

    /// Takes in what the driver reports and says what to do next. A
    /// supervisor that has halted ignores the event and repeats its last
    /// word.
    pub fn step(self, event: Event) -> (res: (NodeRestarter, Action))
        ensures
            res.0@ == next(self@, event@),
            res.1 == res.0@.action(),
            res.0@.well_formed(),
    {
        proof {
            use_type_invariant(&self);
        }
        let after = match self.status {
            Status::Running => match self.phase {
                Phase::Provision => self.on_provision(event),
                Phase::Spawn => self.on_spawn(event),
                Phase::Settle => self.on_settle(event),
                Phase::Await => self.on_await(event),
                Phase::Drain => if self.shutdown_delivered {
                    self.on_join(event)
                } else {
                    self.on_notify(event)
                },
                Phase::Release => self.on_release(event),
                Phase::Adopt => self.on_adopt(event),
            },
            _ => self,
        };
        proof {
            use_type_invariant(&after);
        }
        let action = after.action();
        (after, action)
    }

    /// Starts a supervisor on the epoch of `committee` and feeds it `events`
    /// in order, as a driver would whose outside work went as the events
    /// say. Returns the supervisor as the last event left it, and every
    /// action it asked for: the first, then one after each event until it
    /// halted or the events ran out.
    pub fn watch(
        identity: NodeIdentity,
        committee: Committee,
        worker_cache: WorkerCache,
        storage_base_path: String,
        parameters: Parameters,
        events: Vec<Event>,
    ) -> (res: (NodeRestarter, Vec<Action>))
        ensures
            res.0@ == run(
                initial(identity@, committee@, worker_cache@, storage_base_path@, parameters),
                events_view(events@),
            ),
            res.1@ == trace(
                initial(identity@, committee@, worker_cache@, storage_base_path@, parameters),
                events_view(events@),
            ),
            res.0@.well_formed(),
    {
        let ghost start = initial(
            identity@,
            committee@,
            worker_cache@,
            storage_base_path@,
            parameters,
        );
        let ghost all = events_view(events@);
        let mut restarter = NodeRestarter::new(
            identity,
            committee,
            worker_cache,
            storage_base_path,
            parameters,
        );
        let mut actions: Vec<Action> = Vec::new();
        assert(all.skip(0) == all);
        for event in it: events
            invariant
                it.seq() == events@,
                all == events_view(events@),
                run(start, all) == run(restarter@, all.skip(it.index())),
                trace(start, all) == actions@ + trace(restarter@, all.skip(it.index())),
        {
            let ghost rest = all.skip(it.index());
            assert(rest.first() == event@);
            assert(rest.drop_first() == all.skip(it.index() + 1));
            if restarter.is_running() {
                actions.push(restarter.action());
            }
            let (after, _) = restarter.step(event);
            restarter = after;
        }
        assert(all.skip(all.len() as int).len() == 0);
        actions.push(restarter.action());
        proof {
            use_type_invariant(&restarter);
        }
        (restarter, actions)
    }

    /// Whether the supervisor is still at work.
    pub fn is_running(&self) -> (running: bool)
        ensures
            running == self@.is_running(),
    {
        match self.status {
            Status::Running => true,
            _ => false,
        }
    }

    /// The step of the cycle that is under way; if the supervisor has
    /// halted, the step in which it did.
    pub fn phase(&self) -> (phase: Phase)
        ensures
            phase == self@.phase,
    {
        self.phase
    }

    pub fn status(&self) -> (status: Status)
        ensures
            status == self@.status,
    {
        self.status
    }

    /// The diagnostic of the failure, if the supervisor has failed.
    pub fn failure(&self) -> (failure: Option<Failure>)
        ensures
            failure == match self@.status {
                Status::Failed(cause) => Some(self@.failure(cause)),
                _ => None,
            },
    {
        match self.status {
            Status::Failed(cause) => Some(
                Failure { phase: self.phase, epoch: self.committee.epoch(), cause },
            ),
            _ => None,
        }
    }

    /// The current epoch: that of the current committee.
    pub fn epoch(&self) -> (epoch: Epoch)
        ensures
            epoch == self@.epoch(),
    {
        self.committee.epoch()
    }

    /// The keys that the current generation runs with.
    pub fn identity(&self) -> (identity: &NodeIdentity)
        ensures
            identity@ == self@.identity,
    {
        &self.identity
    }

    /// The committee of the current generation.
    pub fn committee(&self) -> (committee: &Committee)
        ensures
            committee@ == self@.committee,
    {
        &self.committee
    }

    /// The snapshot that the shared worker cache holds.
    pub fn worker_cache(&self) -> (worker_cache: &WorkerCache)
        ensures
            worker_cache@ == self@.worker_cache,
    {
        &self.worker_cache
    }

    /// The request that is being carried out, from its receipt to its
    /// adoption.
    pub fn pending(&self) -> (pending: Option<&ReconfigureMessage>)
        ensures
            match pending {
                Some(message) => self@.pending == Some(message@),
                None => self@.pending is None,
            },
    {
        self.pending.as_ref()
    }

    /// The metrics registry that is registered with the registry service.
    pub fn metrics(&self) -> (metrics: Option<EpochMetricsScope>)
        ensures
            metrics == self@.metrics,
    {
        self.metrics
    }

    /// The storage that is open.
    pub fn storage(&self) -> (storage: Option<EpochStorageScope>)
        ensures
            storage == self@.storage,
    {
        self.storage
    }

    /// The generation whose tasks are alive.
    pub fn tasks(&self) -> (tasks: Option<GenerationTaskSet>)
        ensures
            tasks == self@.tasks,
    {
        self.tasks
    }

    /// Where the storage of the current epoch lives.
    pub fn storage_path(&self) -> (path: String)
        ensures
            path@ == storage_path_spec(self@.storage_base_path, self@.epoch()),
    {
        storage_path(self.storage_base_path.as_str(), self.committee.epoch())
    }

    /// The address to which the shutdown notification is posted.
    pub fn shutdown_url(&self) -> (url: String)
        ensures
            url@ == shutdown_url_spec(self@.parameters.primary_network_admin_server_port),
    {
        shutdown_url(self.parameters.primary_network_admin_server_port)
    }
}

} // verus!
