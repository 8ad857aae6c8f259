use arc_swap::ArcSwap;
use narwhal_node::config::{
    Authority, Committee, NodeIdentity, Parameters, ReconfigureMessage, WorkerCache, WorkerEntry,
};
use narwhal_node::protocol::{Action, Event, Phase, TaskOutcome};
use narwhal_node::restarter::NodeRestarter;
use std::sync::Arc;

fn identity(tag: u8) -> NodeIdentity {
    NodeIdentity {
        name: vec![tag],
        primary_keypair: vec![tag, 1],
        primary_network_keypair: vec![tag, 2],
        worker_ids_and_keypairs: vec![(0, vec![tag, 3]), (1, vec![tag, 4])],
    }
}

fn committee(epoch: u64) -> Committee {
    Committee::new(
        epoch,
        (0..4u8).map(|i| Authority { name: vec![i], stake: 10 + i as u64 }).collect(),
    )
}

fn worker_cache(epoch: u64) -> WorkerCache {
    WorkerCache::new(
        epoch,
        vec![WorkerEntry {
            authority: vec![0],
            worker_id: 0,
            address: format!("/ip4/10.0.0.1/tcp/{}", 5000 + epoch),
        }],
    )
}

fn message(epoch: u64) -> ReconfigureMessage {
    ReconfigureMessage {
        identity: identity(epoch as u8),
        committee: committee(epoch),
        worker_cache: worker_cache(epoch),
    }
}

fn supervisor() -> NodeRestarter {
    NodeRestarter::new(
        identity(0),
        committee(0),
        worker_cache(0),
        "/data".to_string(),
        Parameters::new(7000),
    )
}

/// The events of one cycle in which all outside work succeeds, ending with
/// the adoption of `next_epoch`.
fn cycle(registry_id: u128, next_epoch: u64) -> Vec<Event> {
    vec![
        Event::Provisioned { registry_id },
        Event::Spawned { primary_handles: 1, worker_handles: 2 },
        Event::Settled,
        Event::Reconfigure(message(next_epoch)),
        Event::ShutdownDelivered,
        Event::Drained(vec![TaskOutcome::Exited; 3]),
        Event::Released,
        Event::Adopted,
    ]
}

#[test]
fn epoch_grows_with_every_adoption_and_at_no_other_step() {
    let mut restarter = supervisor();
    let mut seen = vec![restarter.epoch()];
    for (registry_id, next_epoch) in [(1u128, 1u64), (2, 2), (3, 5), (4, 6), (5, 100)] {
        for event in cycle(registry_id, next_epoch) {
            let before = restarter.epoch();
            let adopting = restarter.phase() == Phase::Adopt && event == Event::Adopted;
            let (after, _) = restarter.step(event);
            restarter = after;
            if adopting {
                assert!(restarter.epoch() > before);
                seen.push(restarter.epoch());
            } else {
                assert_eq!(restarter.epoch(), before);
            }
        }
    }
    assert_eq!(seen, vec![0, 1, 2, 5, 6, 100]);
    assert!(seen.windows(2).all(|pair| pair[0] < pair[1]));
}

#[test]
fn tasks_exist_from_settling_to_draining_only() {
    let mut restarter = supervisor();
    for (registry_id, next_epoch) in [(1u128, 1u64), (2, 2)] {
        for event in cycle(registry_id, next_epoch) {
            let (after, action) = restarter.step(event);
            restarter = after;
            let alive = restarter.tasks().is_some();
            let expected = matches!(
                restarter.phase(),
                Phase::Settle | Phase::Await | Phase::Drain
            );
            assert_eq!(alive, expected);
            if let Some(tasks) = restarter.tasks() {
                assert_eq!(tasks.epoch, restarter.epoch());
            }
            if matches!(action, Action::Spawn { .. }) {
                assert_eq!(restarter.tasks(), None);
            }
            if matches!(action, Action::Release { .. }) {
                assert_eq!(restarter.tasks(), None);
            }
        }
    }
}

#[test]
fn storage_is_open_from_provisioning_to_release_only() {
    let mut restarter = supervisor();
    assert_eq!(restarter.storage(), None);
    for (registry_id, next_epoch) in [(1u128, 3u64), (2, 4)] {
        for event in cycle(registry_id, next_epoch) {
            let (after, action) = restarter.step(event);
            restarter = after;
            let open = restarter.storage().is_some();
            let expected = matches!(
                restarter.phase(),
                Phase::Spawn | Phase::Settle | Phase::Await | Phase::Drain | Phase::Release
            );
            assert_eq!(open, expected);
            if let Some(storage) = restarter.storage() {
                assert_eq!(storage.epoch, restarter.epoch());
            }
            if matches!(action, Action::Provision { .. }) {
                assert_eq!(restarter.storage(), None);
            }
        }
    }
}

#[test]
fn metrics_registry_is_evicted_by_the_adoption() {
    let mut restarter = supervisor();
    for (registry_id, next_epoch) in [(77u128, 1u64), (78, 2), (79, 3)] {
        for event in cycle(registry_id, next_epoch) {
            let (after, action) = restarter.step(event);
            restarter = after;
            match action {
                Action::Adopt { epoch, evict } => {
                    assert_eq!(epoch, next_epoch);
                    assert_eq!(evict, registry_id);
                    assert_eq!(restarter.metrics().unwrap().registry_id, registry_id);
                }
                Action::Provision { .. } => assert_eq!(restarter.metrics(), None),
                _ => {
                    let metrics = restarter.metrics().unwrap();
                    assert_eq!(metrics.registry_id, registry_id);
                    assert_eq!(metrics.epoch, restarter.epoch());
                }
            }
        }
    }
}

#[test]
fn worker_cache_changes_when_adoption_completes_and_only_then() {
    let mut restarter = supervisor();
    for (registry_id, next_epoch) in [(1u128, 1u64), (2, 2)] {
        for event in cycle(registry_id, next_epoch) {
            let before = restarter.worker_cache().clone();
            let adopting = restarter.phase() == Phase::Adopt && event == Event::Adopted;
            let (after, _) = restarter.step(event);
            restarter = after;
            if adopting {
                assert_eq!(restarter.worker_cache(), &worker_cache(next_epoch));
                assert_ne!(restarter.worker_cache(), &before);
            } else {
                assert_eq!(restarter.worker_cache(), &before);
            }
        }
    }
}

#[test]
fn shared_worker_cache_handle_stays_the_same_while_its_content_is_swapped() {
    // The driver owns the cell that all generations share and swaps its
    // content when the supervisor asks for an adoption.
    let shared: Arc<ArcSwap<WorkerCache>> = Arc::new(ArcSwap::from_pointee(worker_cache(0)));
    let mut handed_out: Vec<Arc<ArcSwap<WorkerCache>>> = Vec::new();
    let mut restarter = supervisor();
    let mut action = restarter.action();
    for (registry_id, next_epoch) in [(1u128, 1u64), (2, 2), (3, 3)] {
        for event in cycle(registry_id, next_epoch) {
            match action {
                Action::Spawn { .. } => {
                    assert_eq!(**shared.load(), *restarter.worker_cache());
                    handed_out.push(shared.clone());
                }
                Action::Adopt { .. } => {
                    let adopted = restarter.pending().unwrap().worker_cache.clone();
                    shared.swap(Arc::new(adopted));
                }
                _ => assert_eq!(**shared.load(), *restarter.worker_cache()),
            }
            let (after, next) = restarter.step(event);
            restarter = after;
            action = next;
        }
    }
    assert_eq!(handed_out.len(), 3);
    for handle in &handed_out {
        assert!(Arc::ptr_eq(handle, &shared));
        assert_eq!(**handle.load(), worker_cache(3));
    }
    assert_eq!(*restarter.worker_cache(), worker_cache(3));
}

#[test]
fn halted_supervisor_keeps_its_state() {
    let mut restarter = supervisor();
    for event in [
        Event::Provisioned { registry_id: 1 },
        Event::Spawned { primary_handles: 1, worker_handles: 2 },
        Event::Settled,
        Event::ChannelClosed,
    ] {
        restarter = restarter.step(event).0;
    }
    assert!(!restarter.is_running());
    for event in cycle(2, 1) {
        let (after, action) = restarter.step(event);
        restarter = after;
        assert_eq!(action, Action::Stop);
        assert_eq!(restarter.phase(), Phase::Await);
        assert_eq!(restarter.epoch(), 0);
        assert!(restarter.tasks().is_some());
    }
}
