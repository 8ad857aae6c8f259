//! The records that a generation of the node is configured with: the
//! committee, the worker topology, the node's own keys, and the supervisor's
//! settings. The supervisor carries them from one generation to the next and
//! reads nothing of them but the committee's epoch and the number of workers.

use vstd::prelude::*;

verus! {

/// Number of a committee generation. It grows from each generation to the
/// next and is never used twice.
pub type Epoch = u64;

/// Identifies one worker of an authority.
pub type WorkerId = u32;

/// Voting power of an authority.
pub type Stake = u64;

/// Public key of an authority: its identity.
pub type PublicKey = Vec<u8>;

/// Signing key pair of a primary, as an opaque token.
pub type KeyPair = Vec<u8>;

/// Network key pair of a primary or of a worker, as an opaque token.
pub type NetworkKeyPair = Vec<u8>;

/// Seconds that a fresh generation is given to bind its listeners before the
/// next reconfiguration request is accepted.
pub const BOOTSTRAP_DELAY_SECS: u64 = 2;

/// Seconds that the operating system is given to free the ports of a drained
/// generation before the next one binds them.
pub const COOLDOWN_DELAY_SECS: u64 = 1;

/// One member of a committee.
#[derive(Clone, Debug, PartialEq, Eq)]
pub struct Authority {
    pub name: PublicKey,
    pub stake: Stake,
}

/// What an [`Authority`] is.
pub struct AuthorityView {
    pub name: Seq<u8>,
    pub stake: Stake,
}

impl View for Authority {
    type V = AuthorityView;

    open spec fn view(&self) -> AuthorityView {
        AuthorityView { name: self.name@, stake: self.stake }
    }
}

/// The authorities that take part in consensus during one epoch. A committee
/// is made once and never changed afterwards.
#[derive(Clone, Debug, PartialEq, Eq)]
pub struct Committee {
    epoch: Epoch,
    authorities: Vec<Authority>,
}

/// What a [`Committee`] is.
pub struct CommitteeView {
    pub epoch: Epoch,
    pub authorities: Seq<AuthorityView>,
}

/// The members of a list of authorities, in order.
pub open spec fn authorities_view(authorities: Seq<Authority>) -> Seq<AuthorityView> {
    authorities.map_values(|a: Authority| a@)
}

impl View for Committee {
    type V = CommitteeView;

    closed spec fn view(&self) -> CommitteeView {
        CommitteeView { epoch: self.epoch, authorities: authorities_view(self.authorities@) }
    }
}

impl Committee {
    /// The committee of `epoch` with the given members.
    pub fn new(epoch: Epoch, authorities: Vec<Authority>) -> (committee: Committee)
        ensures
            committee@ == (CommitteeView {
                epoch,
                authorities: authorities_view(authorities@),
            }),
    {
        Committee { epoch, authorities }
    }

    /// The epoch during which this committee is authoritative.
    pub fn epoch(&self) -> (epoch: Epoch)
        ensures
            epoch == self@.epoch,
    {
        self.epoch
    }

    /// The number of authorities.
    pub fn size(&self) -> (size: usize)
        ensures
            size == self@.authorities.len(),
    {
        self.authorities.len()
    }
}

/// Where one worker of one authority is reached.
#[derive(Clone, Debug, PartialEq, Eq)]
pub struct WorkerEntry {
    pub authority: PublicKey,
    pub worker_id: WorkerId,
    pub address: String,
}

/// What a [`WorkerEntry`] is.
pub struct WorkerEntryView {
    pub authority: Seq<u8>,
    pub worker_id: WorkerId,
    pub address: Seq<char>,
}

impl View for WorkerEntry {
    type V = WorkerEntryView;

    open spec fn view(&self) -> WorkerEntryView {
        WorkerEntryView {
            authority: self.authority@,
            worker_id: self.worker_id,
            address: self.address@,
        }
    }
}

/// The worker topology of one epoch: for each authority and each of its
/// workers, the worker's network address. This is one snapshot; the cell that
/// the generations share holds one snapshot at a time.
#[derive(Clone, Debug, PartialEq, Eq)]
pub struct WorkerCache {
    epoch: Epoch,
    workers: Vec<WorkerEntry>,
}

/// What a [`WorkerCache`] is.
pub struct WorkerCacheView {
    pub epoch: Epoch,
    pub workers: Seq<WorkerEntryView>,
}

/// The entries of a list of workers, in order.
pub open spec fn workers_view(workers: Seq<WorkerEntry>) -> Seq<WorkerEntryView> {
    workers.map_values(|w: WorkerEntry| w@)
}

impl View for WorkerCache {
    type V = WorkerCacheView;

    closed spec fn view(&self) -> WorkerCacheView {
        WorkerCacheView { epoch: self.epoch, workers: workers_view(self.workers@) }
    }
}

impl WorkerCache {
    /// The worker topology of `epoch` with the given entries.
    pub fn new(epoch: Epoch, workers: Vec<WorkerEntry>) -> (cache: WorkerCache)
        ensures
            cache@ == (WorkerCacheView { epoch, workers: workers_view(workers@) }),
    {
        WorkerCache { epoch, workers }
    }

    /// The epoch that this snapshot describes.
    pub fn epoch(&self) -> (epoch: Epoch)
        ensures
            epoch == self@.epoch,
    {
        self.epoch
    }

    /// The number of workers listed, over all authorities.
    pub fn size(&self) -> (size: usize)
        ensures
            size == self@.workers.len(),
    {
        self.workers.len()
    }
}

/// The keys under which the node runs during one generation.
#[derive(Clone, Debug, PartialEq, Eq)]
pub struct NodeIdentity {
    /// The public half of the primary's signing key: the node's name.
    pub name: PublicKey,
    pub primary_keypair: KeyPair,
    pub primary_network_keypair: NetworkKeyPair,
    /// One entry for each worker the node runs.
    pub worker_ids_and_keypairs: Vec<(WorkerId, NetworkKeyPair)>,
}

/// What a [`NodeIdentity`] is.
pub struct NodeIdentityView {
    pub name: Seq<u8>,
    pub primary_keypair: Seq<u8>,
    pub primary_network_keypair: Seq<u8>,
    pub worker_ids_and_keypairs: Seq<(WorkerId, Seq<u8>)>,
}

/// The worker keys of a node, in order.
pub open spec fn worker_keys_view(keys: Seq<(WorkerId, NetworkKeyPair)>) -> Seq<
    (WorkerId, Seq<u8>),
> {
    keys.map_values(|k: (WorkerId, NetworkKeyPair)| (k.0, k.1@))
}

impl View for NodeIdentity {
    type V = NodeIdentityView;

    open spec fn view(&self) -> NodeIdentityView {
        NodeIdentityView {
            name: self.name@,
            primary_keypair: self.primary_keypair@,
            primary_network_keypair: self.primary_network_keypair@,
            worker_ids_and_keypairs: worker_keys_view(self.worker_ids_and_keypairs@),
        }
    }
}

/// A request to move to the next generation: everything that the next
/// generation runs with.
#[derive(Clone, Debug, PartialEq, Eq)]
pub struct ReconfigureMessage {
    pub identity: NodeIdentity,
    pub committee: Committee,
    pub worker_cache: WorkerCache,
}

/// What a [`ReconfigureMessage`] is.
pub struct ReconfigureMessageView {
    pub identity: NodeIdentityView,
    pub committee: CommitteeView,
    pub worker_cache: WorkerCacheView,
}

impl View for ReconfigureMessage {
    type V = ReconfigureMessageView;

    open spec fn view(&self) -> ReconfigureMessageView {
        ReconfigureMessageView {
            identity: self.identity@,
            committee: self.committee@,
            worker_cache: self.worker_cache@,
        }
    }
}

/// Settings of the supervisor.
#[derive(Clone, Copy, Debug, PartialEq, Eq)]
pub struct Parameters {
    /// Local port of the primary's administrative endpoint.
    pub primary_network_admin_server_port: u16,
    /// Seconds to wait after spawning a generation.
    pub bootstrap_delay_secs: u64,
    /// Seconds to wait after releasing the storage of a drained generation.
    pub cooldown_delay_secs: u64,
    /// How many times the delivery of the shutdown notification is tried
    /// before the cycle fails. The first try is always made.
    pub shutdown_attempts: u32,
    /// Seconds to wait before each further try.
    pub shutdown_retry_delay_secs: u64,
}

impl Parameters {
    /// The settings for a primary whose administrative endpoint listens on
    /// `port`: the usual grace periods, and a single try to deliver the
    /// shutdown notification.
    pub fn new(port: u16) -> (parameters: Parameters)
        ensures
            parameters == (Parameters {
                primary_network_admin_server_port: port,
                bootstrap_delay_secs: BOOTSTRAP_DELAY_SECS,
                cooldown_delay_secs: COOLDOWN_DELAY_SECS,
                shutdown_attempts: 1,
                shutdown_retry_delay_secs: 0,
            }),
    {
        Parameters {
            primary_network_admin_server_port: port,
            bootstrap_delay_secs: BOOTSTRAP_DELAY_SECS,
            cooldown_delay_secs: COOLDOWN_DELAY_SECS,
            shutdown_attempts: 1,
            shutdown_retry_delay_secs: 0,
        }
    }
}

} // verus!
