//! What holds of every run of the supervisor. Each law is proved of the
//! state machine that [`crate::restarter::NodeRestarter::step`] and
//! [`crate::restarter::NodeRestarter::watch`] are specified by.

use crate::config::{CommitteeView, Epoch, NodeIdentityView, Parameters, WorkerCacheView};
use crate::machine::{initial, next, run, trace, RestarterState};
use crate::protocol::{failed_tasks, Action, EventView, Phase, TaskOutcome};
use vstd::prelude::*;

verus! {

/// Whether `event` completes an adoption in `s`.
pub open spec fn adopts(s: RestarterState, event: EventView) -> bool {
    s.is_running() && s.phase == Phase::Adopt && event is Adopted
}

/// The epochs of the generations that the supervisor goes through while it is
/// fed `events`: the epoch it starts in, then each epoch it adopts.
pub open spec fn epochs(s: RestarterState, events: Seq<EventView>) -> Seq<Epoch>
    decreases events.len(),
{
    if events.len() == 0 {
        seq![s.epoch()]
    } else {
        let rest = epochs(next(s, events.first()), events.drop_first());
        if adopts(s, events.first()) {
            seq![s.epoch()] + rest
        } else {
            rest
        }
    }
}

/// The epochs that `actions` ask to provision, in order.
pub open spec fn provisioned(actions: Seq<Action>) -> Seq<Epoch>
    decreases actions.len(),
{
    if actions.len() == 0 {
        seq![]
    } else {
        let rest = provisioned(actions.drop_first());
        match actions.first() {
            Action::Provision { epoch } => seq![epoch] + rest,
            _ => rest,
        }
    }
}

/// Whether each element of `epochs` is greater than all before it.
pub open spec fn strictly_increasing(epochs: Seq<Epoch>) -> bool {
    forall|i: int, j: int| 0 <= i < j < epochs.len() ==> epochs[i] < epochs[j]
}

/// The supervisor starts in a well-formed state.
pub proof fn law_initial_well_formed(
    identity: NodeIdentityView,
    committee: CommitteeView,
    worker_cache: WorkerCacheView,
    storage_base_path: Seq<char>,
    parameters: Parameters,
)
    ensures
        initial(identity, committee, worker_cache, storage_base_path, parameters).well_formed(),
{
}

/// No event takes the supervisor out of the well-formed states.
pub proof fn law_step_well_formed(s: RestarterState, event: EventView)
    requires
        s.well_formed(),
    ensures
        next(s, event).well_formed(),
{
}

/// Every state that the supervisor reaches is well formed.
pub proof fn law_run_well_formed(s: RestarterState, events: Seq<EventView>)
    requires
        s.well_formed(),
    ensures
        run(s, events).well_formed(),
    decreases events.len(),
{
    if events.len() > 0 {
        law_step_well_formed(s, events.first());
        law_run_well_formed(next(s, events.first()), events.drop_first());
    }
}

/// The current epoch changes only when an adoption completes, and then it
/// grows.
pub proof fn law_epoch_changes_by_adoption(s: RestarterState, event: EventView)
    requires
        s.well_formed(),
    ensures
        adopts(s, event) ==> next(s, event).epoch() > s.epoch(),
        !adopts(s, event) ==> next(s, event).epoch() == s.epoch(),
{
}

/// From one cycle to the next the epoch strictly increases: the epochs that
/// the supervisor goes through begin with the one it started in, end with the
/// one it has reached, and each is greater than all before it.
pub proof fn law_epochs_strictly_increase(s: RestarterState, events: Seq<EventView>)
    requires
        s.well_formed(),
    ensures
        epochs(s, events).len() >= 1,
        epochs(s, events).first() == s.epoch(),
        epochs(s, events).last() == run(s, events).epoch(),
        strictly_increasing(epochs(s, events)),
    decreases events.len(),
{
    if events.len() > 0 {
        let after = next(s, events.first());
        let rest = epochs(after, events.drop_first());
        law_step_well_formed(s, events.first());
        law_epoch_changes_by_adoption(s, events.first());
        law_epochs_strictly_increase(after, events.drop_first());
        if adopts(s, events.first()) {
            let all = seq![s.epoch()] + rest;
            assert(all.last() == rest.last());
            assert forall|i: int, j: int| 0 <= i < j < all.len() implies all[i] < all[j] by {
                assert(all[j] == rest[j - 1]);
                if i == 0 {
                    assert(rest[0] <= rest[j - 1]);
                } else {
                    assert(all[i] == rest[i - 1]);
                }
            }
        }
    }
}

/// The supervisor never asks to provision an epoch twice, nor an epoch
/// earlier than one it has provisioned: along every run, the epochs of the
/// provisioning actions strictly increase, and none is earlier than the epoch
/// that the run started in.
pub proof fn law_provisioned_epochs_strictly_increase(s: RestarterState, events: Seq<EventView>)
    requires
        s.well_formed(),
    ensures
        strictly_increasing(provisioned(trace(s, events))),
        forall|k: int|
            0 <= k < provisioned(trace(s, events)).len() ==> provisioned(trace(s, events))[k]
                >= s.epoch(),
        !(s.action() is Provision) ==> forall|k: int|
            0 <= k < provisioned(trace(s, events)).len() ==> provisioned(trace(s, events))[k]
                > s.epoch(),
    decreases events.len(),
{
    let first = seq![s.action()];
    if events.len() == 0 || !s.is_running() {
        assert(first.drop_first() =~= Seq::<Action>::empty());
        assert(provisioned(first.drop_first()) =~= Seq::<Epoch>::empty());
    } else {
        let after = next(s, events.first());
        let later = trace(after, events.drop_first());
        let rest = provisioned(later);
        law_step_well_formed(s, events.first());
        law_epoch_changes_by_adoption(s, events.first());
        law_provisioned_epochs_strictly_increase(after, events.drop_first());
        assert((first + later).first() == s.action());
        assert((first + later).drop_first() =~= later);
        if s.action() is Provision {
            let all = seq![s.epoch()] + rest;
            assert(provisioned(trace(s, events)) == all);
            assert(!(after.action() is Provision));
            assert forall|i: int, j: int| 0 <= i < j < all.len() implies all[i] < all[j] by {
                assert(all[j] == rest[j - 1]);
                if i > 0 {
                    assert(all[i] == rest[i - 1]);
                }
            }
        } else {
            assert(provisioned(trace(s, events)) == rest);
        }
    }
}

/// At most one generation is alive, and none outlives its drain. The
/// supervisor keeps account of one task set at most, and its tasks are those
/// of the current epoch. While the supervisor is at work, tasks exist in the
/// phases from settling to draining and in no other: none is left when a
/// generation is spawned, when the storage is released, or when the next
/// epoch is adopted.
pub proof fn law_one_generation_at_a_time(s: RestarterState)
    requires
        s.well_formed(),
    ensures
        s.tasks is Some ==> s.tasks.unwrap().epoch == s.epoch(),
        s.is_running() ==> (s.tasks is Some <==> s.phase == Phase::Settle || s.phase
            == Phase::Await || s.phase == Phase::Drain),
        s.action() is Provision || s.action() is Spawn || s.action() is Release || s.action()
            is Adopt ==> s.tasks is None,
{
}

/// The drain is a barrier: the cycle goes on from it only to the release of
/// the storage, and only with no task of the generation left.
pub proof fn law_drain_leaves_no_task(s: RestarterState, event: EventView)
    requires
        s.well_formed(),
    ensures
        s.is_running() && s.phase == Phase::Drain && next(s, event).is_running() && next(
            s,
            event,
        ).phase != Phase::Drain ==> next(s, event).phase == Phase::Release && next(
            s,
            event,
        ).tasks is None,
{
}

/// A drain counts no failed task exactly when every task exited cleanly, and
/// never counts more failed tasks than there are outcomes.
pub proof fn law_failed_tasks_counts_unclean_exits(outcomes: Seq<TaskOutcome>)
    ensures
        failed_tasks(outcomes) <= outcomes.len(),
        failed_tasks(outcomes) == 0 <==> forall|i: int|
            0 <= i < outcomes.len() ==> outcomes[i] == TaskOutcome::Exited,
    decreases outcomes.len(),
{
    if outcomes.len() > 0 {
        let front = outcomes.drop_last();
        law_failed_tasks_counts_unclean_exits(front);
        if failed_tasks(outcomes) == 0 {
            assert forall|i: int| 0 <= i < outcomes.len() implies outcomes[i]
                == TaskOutcome::Exited by {
                if i < front.len() {
                    assert(outcomes[i] == front[i]);
                }
            }
        } else if outcomes.last() == TaskOutcome::Exited {
            let i = choose|i: int| 0 <= i < front.len() && front[i] != TaskOutcome::Exited;
            assert(outcomes[i] == front[i]);
        }
    }
}

/// The shared worker cache holds the same snapshot from one adoption to the
/// next: its content changes only when an adoption completes, and then to
/// the topology of the request that is carried out. No task is alive at that
/// moment, so no task sees the content change under it.
pub proof fn law_worker_cache_changes_at_adopt(s: RestarterState, event: EventView)
    requires
        s.well_formed(),
    ensures
        !adopts(s, event) ==> next(s, event).worker_cache == s.worker_cache,
        adopts(s, event) ==> next(s, event).worker_cache == s.pending.unwrap().worker_cache,
        adopts(s, event) ==> s.tasks is None,
{
}

/// Identity and committee are replaced together with the worker topology, by
/// those of the request, and at no other moment.
pub proof fn law_identity_and_committee_change_at_adopt(s: RestarterState, event: EventView)
    requires
        s.well_formed(),
    ensures
        !adopts(s, event) ==> next(s, event).identity == s.identity && next(s, event).committee
            == s.committee,
        adopts(s, event) ==> next(s, event).identity == s.pending.unwrap().identity && next(
            s,
            event,
        ).committee == s.pending.unwrap().committee,
{
}

/// The storage lifetimes of two epochs do not overlap. The storage that is
/// open is that of the current epoch; none is open when an epoch's
/// provisioning begins; storage comes into being only as the result of
/// provisioning; and it is released only after the tasks that used it are
/// gone.
pub proof fn law_storage_scoped_to_cycle(s: RestarterState, event: EventView)
    requires
        s.well_formed(),
    ensures
        s.storage is Some ==> s.storage.unwrap().epoch == s.epoch(),
        s.action() is Provision ==> s.storage is None,
        s.action() is Release ==> s.storage is Some && s.tasks is None,
        s.storage is None && next(s, event).storage is Some ==> s.action() is Provision
            && event is Provisioned,
        s.is_running() && s.phase == Phase::Release && event is Released ==> next(
            s,
            event,
        ).storage is None,
{
}

/// The metrics registry of an epoch is gone once the epoch's adoption has
/// completed. The registry that is registered is that of the current epoch;
/// the adoption names it for eviction, after the tasks that used it are gone;
/// and none is registered when the next epoch's provisioning begins.
pub proof fn law_metrics_scoped_to_cycle(s: RestarterState, event: EventView)
    requires
        s.well_formed(),
    ensures
        s.metrics is Some ==> s.metrics.unwrap().epoch == s.epoch(),
        s.action() is Provision ==> s.metrics is None,
        s.action() is Adopt ==> s.tasks is None && s.metrics is Some && s.action()
            == (Action::Adopt {
            epoch: s.pending.unwrap().committee.epoch,
            evict: s.metrics.unwrap().registry_id,
        }),
        adopts(s, event) ==> next(s, event).metrics is None && next(s, event).action()
            is Provision,
{
}

/// Everything of one generation is torn down before anything of the next is
/// provisioned: when provisioning begins, the supervisor holds no metrics
/// registry, no storage, no task and no request.
pub proof fn law_provision_starts_clean(s: RestarterState)
    requires
        s.well_formed(),
    ensures
        s.action() is Provision ==> s.holds(false, false, false, false),
{
}

/// The supervisor returns only because the reconfiguration channel was
/// closed while it was waiting for a request, and it leaves the generation
/// in flight as it is.
pub proof fn law_terminates_on_closed_channel(s: RestarterState, event: EventView)
    requires
        s.well_formed(),
    ensures
        s.is_running() ==> (next(s, event).status is Terminated <==> s.phase == Phase::Await
            && event is ChannelClosed),
        next(s, event).status is Terminated ==> next(s, event).tasks == s.tasks && next(
            s,
            event,
        ).storage == s.storage && next(s, event).metrics == s.metrics,
{
}

/// A supervisor that has halted stays as it is, whatever it is fed.
pub proof fn law_halted_is_final(s: RestarterState, events: Seq<EventView>)
    requires
        !s.is_running(),
    ensures
        run(s, events) == s,
        trace(s, events) == seq![s.action()],
    decreases events.len(),
{
    if events.len() > 0 {
        law_halted_is_final(s, events.drop_first());
    }
}

/// The actions recorded along a run number at most one more than the events,
/// and the last of them is the action that the state reached is waiting on.
pub proof fn law_trace_ends_with_pending_action(s: RestarterState, events: Seq<EventView>)
    ensures
        1 <= trace(s, events).len() <= events.len() + 1,
        trace(s, events).first() == s.action(),
        trace(s, events).last() == run(s, events).action(),
    decreases events.len(),
{
    if events.len() > 0 {
        if s.is_running() {
            law_trace_ends_with_pending_action(next(s, events.first()), events.drop_first());
        } else {
            law_halted_is_final(s, events);
        }
    }
}

} // verus!
