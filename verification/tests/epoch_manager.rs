//! End-to-end tests of the epoch manager. The manager core is sequential
//! (the integration supplies the lock, the barrier, the clock and the
//! record counter), so each close is driven by registering every vote and
//! then confirming once per source, with explicit instants in place of
//! sleeps.

use epoch_core::{
    CheckpointFactory, ClosedEpoch, EpochManager, EpochManagerOptions, NodeHandle,
    SinkPersistQueue, SourceState,
};

const NUM_THREADS: u16 = 10;

fn create_epoch_manager(num_sources: usize, options: EpochManagerOptions) -> EpochManager {
    let factory = CheckpointFactory::new(SinkPersistQueue { token: 0 });
    EpochManager::new(num_sources, 0, factory, options, 0)
}

fn generate_source_state(index: u16) -> (NodeHandle, SourceState) {
    (
        NodeHandle::new(Some(index), index.to_string()),
        SourceState::NotStarted,
    )
}

/// Drives one full close: every participant votes, then every participant
/// confirms; asserts that all participants observe the same decision and
/// returns the first observation.
fn run_epoch_manager(
    epoch_manager: &mut EpochManager,
    termination_gen: &dyn Fn(u16) -> bool,
    commit_gen: &dyn Fn(u16) -> bool,
    source_state_gen: &dyn Fn(u16) -> (NodeHandle, SourceState),
    now: u64,
) -> ClosedEpoch {
    for index in 0..NUM_THREADS {
        let accepted = epoch_manager.register_vote(
            source_state_gen(index),
            termination_gen(index),
            commit_gen(index),
        );
        assert!(accepted);
    }
    let results: Vec<ClosedEpoch> = (0..NUM_THREADS)
        .map(|_| epoch_manager.confirm_epoch_close(0, now))
        .collect();

    let first = results.first().unwrap();
    for result in &results {
        assert_eq!(result.should_terminate, first.should_terminate);
        assert_eq!(result.common_info.is_some(), first.common_info.is_some());
        if let Some(common_info) = &result.common_info {
            assert_eq!(common_info.id, first.common_info.as_ref().unwrap().id);
        }
        assert_eq!(result.decision_instant, first.decision_instant);
    }
    results.into_iter().next().unwrap()
}

#[test]
fn test_epoch_manager() {
    let mut epoch_manager = create_epoch_manager(NUM_THREADS as usize, Default::default());

    // All sources have no new data, epoch should not be closed.
    let ClosedEpoch { common_info, .. } = run_epoch_manager(
        &mut epoch_manager,
        &|_| false,
        &|_| false,
        &generate_source_state,
        1,
    );
    assert!(common_info.is_none());

    // One source has new data, epoch should be closed.
    let ClosedEpoch { common_info, .. } = run_epoch_manager(
        &mut epoch_manager,
        &|_| false,
        &|index| index == 0,
        &generate_source_state,
        2,
    );
    let common_info = common_info.unwrap();
    assert_eq!(common_info.id, 0);
    assert_eq!(common_info.source_states.len(), NUM_THREADS as usize);
    for index in 0..NUM_THREADS {
        let (handle, _) = generate_source_state(index);
        assert_eq!(
            common_info.source_states.get(&handle),
            Some(&SourceState::NotStarted)
        );
    }

    // All but one source requests termination, should not terminate.
    let ClosedEpoch {
        should_terminate, ..
    } = run_epoch_manager(
        &mut epoch_manager,
        &|index| index != 0,
        &|_| false,
        &generate_source_state,
        3,
    );
    assert!(!should_terminate);

    // All sources requests termination, should terminate.
    let ClosedEpoch {
        should_terminate, ..
    } = run_epoch_manager(
        &mut epoch_manager,
        &|_| true,
        &|_| false,
        &generate_source_state,
        4,
    );
    assert!(should_terminate);
}

#[test]
fn test_epoch_manager_persist_message() {
    let mut epoch_manager = create_epoch_manager(
        1,
        EpochManagerOptions {
            max_num_records_before_persist: 1,
            max_interval_before_persist_in_seconds: 1,
            enable_app_checkpoints: true,
        },
    );

    let source_state = generate_source_state(0);

    // No record, no persist.
    assert!(epoch_manager.register_vote(source_state.clone(), false, true));
    let epoch = epoch_manager.confirm_epoch_close(0, 10);
    let common_info = epoch.common_info.unwrap();
    assert!(common_info.checkpoint_writer.is_none());
    assert!(common_info.sink_persist_queue.is_none());

    // One record, persist.
    assert!(epoch_manager.register_vote(source_state.clone(), false, true));
    let epoch = epoch_manager.confirm_epoch_close(1, 20);
    let common_info = epoch.common_info.unwrap();
    assert!(common_info.checkpoint_writer.is_some());
    assert!(common_info.sink_persist_queue.is_some());

    // Time passes, persist.
    assert!(epoch_manager.register_vote(source_state.clone(), false, true));
    let epoch = epoch_manager.confirm_epoch_close(1, 20 + 1000);
    let common_info = epoch.common_info.unwrap();
    assert!(common_info.checkpoint_writer.is_some());
    assert!(common_info.sink_persist_queue.is_some());

    // Also test the case where checkpoints are disabled.
    let mut epoch_manager = create_epoch_manager(
        1,
        EpochManagerOptions {
            max_num_records_before_persist: 1,
            max_interval_before_persist_in_seconds: 1,
            enable_app_checkpoints: false,
        },
    );

    let source_state = generate_source_state(0);

    // No record, no persist.
    assert!(epoch_manager.register_vote(source_state.clone(), false, true));
    let epoch = epoch_manager.confirm_epoch_close(0, 10);
    let common_info = epoch.common_info.unwrap();
    assert!(common_info.checkpoint_writer.is_none());
    assert!(common_info.sink_persist_queue.is_none());

    // One record, persist.
    assert!(epoch_manager.register_vote(source_state.clone(), false, true));
    let epoch = epoch_manager.confirm_epoch_close(1, 20);
    let common_info = epoch.common_info.unwrap();
    assert!(common_info.checkpoint_writer.is_none());
    assert!(common_info.sink_persist_queue.is_some());

    // Time passes, persist.
    assert!(epoch_manager.register_vote(source_state.clone(), false, true));
    let epoch = epoch_manager.confirm_epoch_close(1, 20 + 1000);
    let common_info = epoch.common_info.unwrap();
    assert!(common_info.checkpoint_writer.is_none());
    assert!(common_info.sink_persist_queue.is_some());
}
