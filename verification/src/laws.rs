//! Properties of the epoch manager, stated and proved over the same spec
//! functions its contracts use.

use vstd::prelude::*;

use crate::checkpoint::CheckpointFactory;
use crate::manager::{
    all_true, any_true, spec_closed_epoch_matches, Action, ClosedEpoch, EpochCommonInfo,
    EpochManager, EpochManagerOptions,
};
use crate::node::{spec_is_restartable, NodeHandleV, SourceStateV};

verus! {

/// Two optional commit packages agree: both absent, or both present with
/// the same id, the same snapshot of states, and handles present alike.
pub open spec fn common_infos_agree(
    first: Option<EpochCommonInfo>,
    second: Option<EpochCommonInfo>,
) -> bool {
    match (first, second) {
        (Some(a), Some(b)) => {
            &&& a.id == b.id
            &&& a.source_states@ == b.source_states@
            &&& (a.checkpoint_writer is Some) == (b.checkpoint_writer is Some)
            &&& (a.sink_persist_queue is Some) == (b.sink_persist_queue is Some)
        },
        (None, None) => true,
        _ => false,
    }
}

/// Every caller of one epoch close observes the same decision: two results
/// composed from the same decision data agree on the termination flag, on
/// whether a commit package exists, on the committed id and states, and on
/// the decision instant.
pub proof fn lemma_close_decision_is_uniform(
    first: ClosedEpoch,
    second: ClosedEpoch,
    terminating: bool,
    action: Action,
    epoch_id: u64,
    states: Map<NodeHandleV, SourceStateV>,
    instant: u64,
    options: EpochManagerOptions,
    factory: CheckpointFactory,
)
    requires
        spec_closed_epoch_matches(
            first,
            terminating,
            action,
            epoch_id,
            states,
            instant,
            options,
            factory,
        ),
        spec_closed_epoch_matches(
            second,
            terminating,
            action,
            epoch_id,
            states,
            instant,
            options,
            factory,
        ),
    ensures
        first.should_terminate == second.should_terminate,
        (first.common_info is Some) == (second.common_info is Some),
        common_infos_agree(first.common_info, second.common_info),
        first.decision_instant == second.decision_instant,
{
}

/// A close terminates the pipeline exactly when every one of its votes
/// requested termination.
pub proof fn lemma_terminate_iff_unanimous(
    epoch: ClosedEpoch,
    termination_requests: Seq<bool>,
    action: Action,
    epoch_id: u64,
    states: Map<NodeHandleV, SourceStateV>,
    instant: u64,
    options: EpochManagerOptions,
    factory: CheckpointFactory,
)
    requires
        spec_closed_epoch_matches(
            epoch,
            all_true(termination_requests),
            action,
            epoch_id,
            states,
            instant,
            options,
            factory,
        ),
    ensures
        epoch.should_terminate <==> (forall|i: int|
            0 <= i < termination_requests.len() ==> termination_requests[i]),
{
}

/// A close carries a commit package exactly when at least one of its votes
/// requested a commit.
pub proof fn lemma_commit_iff_any_requested(
    epoch: ClosedEpoch,
    commit_requests: Seq<bool>,
    terminating: bool,
    action: Action,
    epoch_id: u64,
    states: Map<NodeHandleV, SourceStateV>,
    instant: u64,
    options: EpochManagerOptions,
    factory: CheckpointFactory,
)
    requires
        spec_closed_epoch_matches(
            epoch,
            terminating,
            action,
            epoch_id,
            states,
            instant,
            options,
            factory,
        ),
        action.spec_should_commit() == any_true(commit_requests),
    ensures
        (epoch.common_info is Some) <==> (exists|i: int|
            0 <= i < commit_requests.len() && commit_requests[i]),
{
}

/// The epoch id counts the committed closes: in every reachable state it
/// equals the id the manager was constructed with plus the number of
/// committed closes completed so far.
pub proof fn lemma_epoch_id_counts_committed_closes(manager: EpochManager)
    requires
        manager.inv(),
    ensures
        manager.spec_epoch_id() == manager.initial_epoch_id@ + manager.num_committed_closes@,
{
}

/// When some collected source state is not restartable, no checkpoint
/// writer is handed out, even when the close persists.
pub proof fn lemma_no_writer_unless_restartable(
    epoch: ClosedEpoch,
    terminating: bool,
    action: Action,
    epoch_id: u64,
    states: Map<NodeHandleV, SourceStateV>,
    instant: u64,
    options: EpochManagerOptions,
    factory: CheckpointFactory,
)
    requires
        spec_closed_epoch_matches(
            epoch,
            terminating,
            action,
            epoch_id,
            states,
            instant,
            options,
            factory,
        ),
        !spec_is_restartable(states),
    ensures
        epoch.common_info matches Some(info) ==> info.checkpoint_writer is None,
{
}

/// The sink persist queue is handed out exactly when the close's action
/// persists; whether checkpoints are enabled plays no part in it.
pub proof fn lemma_queue_exactly_on_persist(
    epoch: ClosedEpoch,
    terminating: bool,
    action: Action,
    epoch_id: u64,
    states: Map<NodeHandleV, SourceStateV>,
    instant: u64,
    options: EpochManagerOptions,
    factory: CheckpointFactory,
)
    requires
        spec_closed_epoch_matches(
            epoch,
            terminating,
            action,
            epoch_id,
            states,
            instant,
            options,
            factory,
        ),
    ensures
        epoch.common_info matches Some(info) ==> (info.sink_persist_queue is Some)
            == action.spec_should_persist(),
{
}

/// The checkpoint writer is handed out exactly when the close persists,
/// checkpoints are enabled, and every collected state is restartable.
pub proof fn lemma_writer_exactly_on_restartable_persist(
    epoch: ClosedEpoch,
    terminating: bool,
    action: Action,
    epoch_id: u64,
    states: Map<NodeHandleV, SourceStateV>,
    instant: u64,
    options: EpochManagerOptions,
    factory: CheckpointFactory,
)
    requires
        spec_closed_epoch_matches(
            epoch,
            terminating,
            action,
            epoch_id,
            states,
            instant,
            options,
            factory,
        ),
    ensures
        epoch.common_info matches Some(info) ==> (info.checkpoint_writer is Some) == (
        action.spec_should_persist() && options.enable_app_checkpoints && spec_is_restartable(
            states,
        )),
{
}

} // verus!
