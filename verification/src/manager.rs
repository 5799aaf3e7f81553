//! The epoch manager: vote folding, the commit/persist decision, and the
//! readout state machine.
//!
//! One epoch close runs in three phases. Phase A: every source folds its
//! vote in with [`EpochManager::register_vote`] (the integration holds the
//! lock while doing so and parks the caller on a barrier afterwards).
//! Phase B and C: each source calls [`EpochManager::confirm_epoch_close`]
//! once past the barrier; the first such call computes the decision, every
//! call reads the same decision out, and the last one rolls the state over
//! to the next epoch. The current time and the record-counter reading are
//! inputs here: the integration supplies them at the decision point.

use vstd::prelude::*;

use crate::checkpoint::{CheckpointFactory, CheckpointWriter, SinkPersistQueue};
use crate::node::{
    is_restartable, spec_is_restartable, NodeHandle, NodeHandleV, SourceState, SourceStateV,
    SourceStates,
};
use std::sync::Arc;

verus! {

/// Relies on `std::sync::Arc::clone`: the result is a new handle to the
/// same shared value, so the readers of one close share one snapshot
/// instead of copying it.
#[verifier::external_body]
fn share_states(states: &Arc<SourceStates>) -> (res: Arc<SourceStates>)
    ensures
        res == *states,
{
    states.clone()
}

/// Conjunction of a sequence of votes; `true` when there are none.
pub open spec fn all_true(votes: Seq<bool>) -> bool {
    forall|i: int| 0 <= i < votes.len() ==> votes[i]
}

/// Disjunction of a sequence of votes; `false` when there are none.
pub open spec fn any_true(votes: Seq<bool>) -> bool {
    exists|i: int| 0 <= i < votes.len() && votes[i]
}

/// Folding one more vote into a conjunction: the fold the manager keeps for
/// termination requests.
pub proof fn lemma_all_true_push(votes: Seq<bool>, vote: bool)
    ensures
        all_true(votes.push(vote)) == (all_true(votes) && vote),
{
    assert(votes.push(vote)[votes.len() as int] == vote);
    if all_true(votes) && vote {
        assert forall|i: int| 0 <= i < votes.push(vote).len() implies votes.push(vote)[i] by {
            if i < votes.len() {
                assert(votes.push(vote)[i] == votes[i]);
            }
        }
    }
    if all_true(votes.push(vote)) {
        assert forall|i: int| 0 <= i < votes.len() implies votes[i] by {
            assert(votes.push(vote)[i] == votes[i]);
        }
    }
}

/// Folding one more vote into a disjunction: the fold the manager keeps for
/// commit requests.
pub proof fn lemma_any_true_push(votes: Seq<bool>, vote: bool)
    ensures
        any_true(votes.push(vote)) == (any_true(votes) || vote),
{
    if any_true(votes) {
        let i = choose|i: int| 0 <= i < votes.len() && votes[i];
        assert(votes.push(vote)[i]);
    }
    if vote {
        assert(votes.push(vote)[votes.len() as int]);
    }
    if any_true(votes.push(vote)) {
        let i = choose|i: int| 0 <= i < votes.push(vote).len() && votes.push(vote)[i];
        if i < votes.len() {
            assert(votes[i]);
        }
    }
}

/// The verdict the manager reaches when an epoch closes: ignore the epoch,
/// commit it, or commit it and persist a durable checkpoint.
#[derive(Clone, Copy, Debug, PartialEq, Eq, Structural)]
pub enum Action {
    Commit,
    CommitAndPersist,
    Nothing,
}

impl Action {
    /// Whether this verdict commits the epoch.
    pub open spec fn spec_should_commit(self) -> bool {
        self is Commit || self is CommitAndPersist
    }

    /// Whether this verdict persists a durable checkpoint.
    pub open spec fn spec_should_persist(self) -> bool {
        self is CommitAndPersist
    }

    pub fn should_commit(&self) -> (r: bool)
        ensures
            r == self.spec_should_commit(),
    {
        matches!(self, Action::Commit | Action::CommitAndPersist)
    }

    pub fn should_persist(&self) -> (r: bool)
        ensures
            r == self.spec_should_persist(),
    {
        matches!(self, Action::CommitAndPersist)
    }
}

/// Tunables of the persist policy.
#[derive(Clone, Copy, Debug, PartialEq, Eq, Structural)]
pub struct EpochManagerOptions {
    /// Persist when at least this many records arrived since the last
    /// persisting decision.
    pub max_num_records_before_persist: usize,
    /// Persist when at least this many seconds elapsed since the last
    /// persisting decision.
    pub max_interval_before_persist_in_seconds: u64,
    /// Whether persisting decisions may hand out a checkpoint writer.
    pub enable_app_checkpoints: bool,
}

impl Default for EpochManagerOptions {
    fn default() -> (options: Self)
        ensures
            options.max_num_records_before_persist == 100_000,
            options.max_interval_before_persist_in_seconds == 60,
            !options.enable_app_checkpoints,
    {
        EpochManagerOptions {
            max_num_records_before_persist: 100_000,
            max_interval_before_persist_in_seconds: 60,
            enable_app_checkpoints: false,
        }
    }
}

/// Records counted since the last persisting decision: the counter is read
/// as a running index and the difference saturates at zero, so a counter
/// that jumped backwards never underflows.
pub open spec fn spec_records_since_persist(num_records: usize, next_record_index: usize) -> int {
    if num_records >= next_record_index {
        num_records - next_record_index
    } else {
        0
    }
}

/// Milliseconds elapsed between two instants, saturating at zero on clock
/// regression.
pub open spec fn spec_elapsed_millis(now: u64, last: u64) -> int {
    if now >= last {
        now - last
    } else {
        0
    }
}

/// Whether the persist policy calls for a durable checkpoint: enough
/// records arrived since the last persisting decision, or enough time
/// passed since it.
pub open spec fn spec_persist_due(
    num_records: usize,
    next_record_index: usize,
    now: u64,
    last: u64,
    options: EpochManagerOptions,
) -> bool {
    ||| spec_records_since_persist(num_records, next_record_index)
        >= options.max_num_records_before_persist
    ||| spec_elapsed_millis(now, last) >= options.max_interval_before_persist_in_seconds * 1000
}

/// The verdict for a close, given the folded commit votes and the persist
/// policy's answer.
pub open spec fn spec_decide(should_commit: bool, persist_due: bool) -> Action {
    if !should_commit {
        Action::Nothing
    } else if persist_due {
        Action::CommitAndPersist
    } else {
        Action::Commit
    }
}

fn persist_due(
    num_records: usize,
    next_record_index: usize,
    now: u64,
    last: u64,
    options: &EpochManagerOptions,
) -> (due: bool)
    ensures
        due == spec_persist_due(num_records, next_record_index, now, last, *options),
{
    let records_since: usize = if num_records >= next_record_index {
        num_records - next_record_index
    } else {
        0
    };
    let records_trigger = records_since >= options.max_num_records_before_persist;
    let elapsed: u64 = if now >= last {
        now - last
    } else {
        0
    };
    let time_trigger = match options.max_interval_before_persist_in_seconds.checked_mul(1000) {
        Some(threshold) => elapsed >= threshold,
        None => false,
    };
    records_trigger || time_trigger
}

/// The shared part of a committed epoch close, identical for every caller.
#[derive(Clone, Debug)]
pub struct EpochCommonInfo {
    /// The id the committed epoch's records are tagged with.
    pub id: u64,
    /// Present iff the close persists, checkpoints are enabled, and every
    /// collected source state is restartable.
    pub checkpoint_writer: Option<CheckpointWriter>,
    /// Present iff the close persists, whether or not checkpoints are
    /// enabled.
    pub sink_persist_queue: Option<SinkPersistQueue>,
    /// Shared snapshot of the states every participating source
    /// contributed.
    pub source_states: Arc<SourceStates>,
}

/// The per-source result of an epoch close. Every caller of the same close
/// receives the same values in each field.
#[derive(Clone, Debug)]
pub struct ClosedEpoch {
    /// Whether every source requested termination for this close.
    pub should_terminate: bool,
    /// `Some` iff the epoch is committed.
    pub common_info: Option<EpochCommonInfo>,
    /// Milliseconds since the manager's time origin at which the decision
    /// was made.
    pub decision_instant: u64,
}

/// What the optional commit package of a close must hold, given the
/// close's decision data.
pub open spec fn spec_common_info_matches(
    common_info: Option<EpochCommonInfo>,
    action: Action,
    epoch_id: u64,
    states: Map<NodeHandleV, SourceStateV>,
    options: EpochManagerOptions,
    factory: CheckpointFactory,
) -> bool {
    match common_info {
        Some(info) => {
            &&& action.spec_should_commit()
            &&& info.id == epoch_id
            &&& info.source_states@ == states
            &&& (info.sink_persist_queue is Some) == action.spec_should_persist()
            &&& (info.sink_persist_queue matches Some(queue) ==> queue == factory.queue)
            &&& (info.checkpoint_writer is Some) == (action.spec_should_persist()
                && options.enable_app_checkpoints && spec_is_restartable(states))
            &&& (info.checkpoint_writer matches Some(writer) ==> writer == (CheckpointWriter {
                factory,
                epoch_id,
            }))
        },
        None => !action.spec_should_commit(),
    }
}

/// Everything the `ClosedEpoch` handed to one caller satisfies, given the
/// close's decision data: the same data determines every field, so every
/// caller of one close sees the same values.
pub open spec fn spec_closed_epoch_matches(
    epoch: ClosedEpoch,
    terminating: bool,
    action: Action,
    epoch_id: u64,
    states: Map<NodeHandleV, SourceStateV>,
    instant: u64,
    options: EpochManagerOptions,
    factory: CheckpointFactory,
) -> bool {
    &&& epoch.should_terminate == terminating
    &&& epoch.decision_instant == instant
    &&& spec_common_info_matches(epoch.common_info, action, epoch_id, states, options, factory)
}

/// Builds the view of one close that a confirming source receives.
fn compose_closed_epoch(
    terminating: bool,
    action: &Action,
    epoch_id: u64,
    source_states: &Arc<SourceStates>,
    instant: u64,
    options: &EpochManagerOptions,
    factory: &CheckpointFactory,
) -> (epoch: ClosedEpoch)
    ensures
        spec_closed_epoch_matches(
            epoch,
            terminating,
            *action,
            epoch_id,
            source_states@,
            instant,
            *options,
            *factory,
        ),
{
    let common_info = if action.should_commit() {
        let restartable = is_restartable(&**source_states);
        let checkpoint_writer = if action.should_persist() && options.enable_app_checkpoints
            && restartable {
            Some(CheckpointWriter::new(*factory, epoch_id))
        } else {
            None
        };
        let sink_persist_queue = if action.should_persist() {
            Some(*factory.queue())
        } else {
            None
        };
        Some(
            EpochCommonInfo {
                id: epoch_id,
                checkpoint_writer,
                sink_persist_queue,
                source_states: share_states(source_states),
            },
        )
    } else {
        None
    };
    ClosedEpoch { should_terminate: terminating, common_info, decision_instant: instant }
}

/// The two phases of the manager's state machine.
#[derive(Debug)]
#[allow(inconsistent_fields)]
pub enum EpochManagerStateKind {
    /// Votes for the current epoch are being accumulated.
    Closing {
        /// Current epoch id.
        epoch_id: u64,
        /// AND-fold over the termination requests seen so far; starts
        /// `true`.
        should_terminate: bool,
        /// OR-fold over the commit requests seen so far; starts `false`.
        should_commit: bool,
        /// The collected source states.
        source_states: SourceStates,
    },
    /// The decision is computed and is being read out by the sources.
    Closed {
        /// Whether every source requested termination.
        terminating: bool,
        /// The decision taken for this close.
        action: Action,
        /// Closed epoch id.
        epoch_id: u64,
        /// Shared snapshot of the collected source states.
        source_states: Arc<SourceStates>,
        /// Milliseconds instant at which the decision was made.
        instant: u64,
        /// How many sources have read the decision out so far.
        num_source_confirmations: usize,
    },
}

impl EpochManagerStateKind {
    pub open spec fn spec_epoch_id(self) -> u64 {
        match self {
            EpochManagerStateKind::Closing { epoch_id, .. } => epoch_id,
            EpochManagerStateKind::Closed { epoch_id, .. } => epoch_id,
        }
    }

    /// The epoch id held in state, whichever variant.
    pub fn epoch_id(&self) -> (id: u64)
        ensures
            id == self.spec_epoch_id(),
    {
        match self {
            EpochManagerStateKind::Closing { epoch_id, .. }
            | EpochManagerStateKind::Closed { epoch_id, .. } => *epoch_id,
        }
    }

    /// A fresh `Closing` state for `epoch_id`: termination granted until a
    /// source objects, commit not requested, no votes collected.
    pub fn new_closing(epoch_id: u64) -> (kind: EpochManagerStateKind)
        ensures
            kind matches EpochManagerStateKind::Closing {
                epoch_id: id,
                should_terminate,
                should_commit,
                source_states,
            } && id == epoch_id && should_terminate && !should_commit && source_states@
                == Map::<NodeHandleV, SourceStateV>::empty(),
    {
        EpochManagerStateKind::Closing {
            epoch_id,
            should_terminate: true,
            should_commit: false,
            source_states: SourceStates::new(),
        }
    }
}

/// The manager's guarded state: the phase of the current close plus the two
/// scalars that drive the persist policy across all epochs.
#[derive(Debug)]
pub struct EpochManagerState {
    pub kind: EpochManagerStateKind,
    /// The record-counter reading at the last persisting decision;
    /// initialized to 0.
    pub next_record_index_to_persist: usize,
    /// Milliseconds instant of the last persisting decision; initialized to
    /// the manager's construction instant.
    pub last_persisted_epoch_decision_instant: u64,
}

/// The epoch coordination core. The integration guards it with a lock and a
/// per-epoch barrier; every state transition and the decision itself live
/// here.
pub struct EpochManager {
    /// How many sources participate in every close; fixed at construction.
    pub num_sources: usize,
    /// Handle to the checkpoint storage collaborator.
    pub checkpoint_factory: CheckpointFactory,
    pub options: EpochManagerOptions,
    pub state: EpochManagerState,
    /// The epoch id the manager was constructed with.
    pub initial_epoch_id: Ghost<u64>,
    /// How many closes have committed and completed their readout so far.
    pub num_committed_closes: Ghost<nat>,
    /// The termination requests folded into the close being accumulated or
    /// read out.
    pub termination_requests: Ghost<Seq<bool>>,
    /// The commit requests folded into the close being accumulated or read
    /// out.
    pub commit_requests: Ghost<Seq<bool>>,
}

impl EpochManager {
    /// Well-formedness: the folded flags agree with the recorded votes, the
    /// epoch id counts the committed closes, and a close being read out has
    /// confirmations left to collect.
    pub open spec fn inv(self) -> bool {
        &&& self.num_sources > 0
        &&& self.termination_requests@.len() == self.commit_requests@.len()
        &&& self.spec_epoch_id() == self.initial_epoch_id@ + self.num_committed_closes@
        &&& match self.state.kind {
            EpochManagerStateKind::Closing { should_terminate, should_commit, .. } => {
                &&& should_terminate == all_true(self.termination_requests@)
                &&& should_commit == any_true(self.commit_requests@)
            },
            EpochManagerStateKind::Closed {
                terminating,
                action,
                num_source_confirmations,
                ..
            } => {
                &&& terminating == all_true(self.termination_requests@)
                &&& action.spec_should_commit() == any_true(self.commit_requests@)
                &&& 1 <= num_source_confirmations < self.num_sources
            },
        }
    }

    pub open spec fn spec_epoch_id(self) -> u64 {
        self.state.kind.spec_epoch_id()
    }

    /// Whether the manager is accumulating votes, as opposed to reading out
    /// a decided close.
    pub open spec fn is_closing(self) -> bool {
        self.state.kind is Closing
    }

    /// The vote map: accumulating while closing, snapshotted once closed.
    pub open spec fn spec_collected_states(self) -> Map<NodeHandleV, SourceStateV> {
        match self.state.kind {
            EpochManagerStateKind::Closing { source_states, .. } => source_states@,
            EpochManagerStateKind::Closed { source_states, .. } => source_states@,
        }
    }

    /// Termination flag of the close at hand.
    pub open spec fn spec_terminate_verdict(self) -> bool {
        match self.state.kind {
            EpochManagerStateKind::Closing { should_terminate, .. } => should_terminate,
            EpochManagerStateKind::Closed { terminating, .. } => terminating,
        }
    }

    /// Whether the close at hand will commit (some vote so far requested
    /// it) or did commit.
    pub open spec fn spec_commit_pending(self) -> bool {
        match self.state.kind {
            EpochManagerStateKind::Closing { should_commit, .. } => should_commit,
            EpochManagerStateKind::Closed { action, .. } => action.spec_should_commit(),
        }
    }

    /// The action the close at hand decides, were the decision taken now
    /// with the given counter reading; the stored action when the decision
    /// is already taken.
    pub open spec fn spec_decided_action(self, num_records: usize, now: u64) -> Action {
        match self.state.kind {
            EpochManagerStateKind::Closing { should_commit, .. } => spec_decide(
                should_commit,
                spec_persist_due(
                    num_records,
                    self.state.next_record_index_to_persist,
                    now,
                    self.state.last_persisted_epoch_decision_instant,
                    self.options,
                ),
            ),
            EpochManagerStateKind::Closed { action, .. } => action,
        }
    }

    /// The instant the close's decision carries: `now` if the decision is
    /// being taken, the stored instant if it is already taken.
    pub open spec fn spec_decision_instant(self, now: u64) -> u64 {
        match self.state.kind {
            EpochManagerStateKind::Closing { .. } => now,
            EpochManagerStateKind::Closed { instant, .. } => instant,
        }
    }

    /// Creates the manager for `num_sources` participants, closing its
    /// first epoch under `epoch_id`. `now` is the construction instant in
    /// milliseconds; the interval trigger of the persist policy counts from
    /// it.
    pub fn new(
        num_sources: usize,
        epoch_id: u64,
        checkpoint_factory: CheckpointFactory,
        options: EpochManagerOptions,
        now: u64,
    ) -> (manager: EpochManager)
        requires
            num_sources > 0,
        ensures
            manager.inv(),
            manager.num_sources == num_sources,
            manager.checkpoint_factory == checkpoint_factory,
            manager.options == options,
            manager.is_closing(),
            manager.spec_epoch_id() == epoch_id,
            manager.initial_epoch_id@ == epoch_id,
            manager.num_committed_closes@ == 0,
            manager.termination_requests@ == Seq::<bool>::empty(),
            manager.commit_requests@ == Seq::<bool>::empty(),
            manager.spec_collected_states() == Map::<NodeHandleV, SourceStateV>::empty(),
            manager.state.next_record_index_to_persist == 0,
            manager.state.last_persisted_epoch_decision_instant == now,
    {
        EpochManager {
            num_sources,
            checkpoint_factory,
            options,
            state: EpochManagerState {
                kind: EpochManagerStateKind::new_closing(epoch_id),
                next_record_index_to_persist: 0,
                last_persisted_epoch_decision_instant: now,
            },
            initial_epoch_id: Ghost(epoch_id),
            num_committed_closes: Ghost(0),
            termination_requests: Ghost(Seq::empty()),
            commit_requests: Ghost(Seq::empty()),
        }
    }

    /// The epoch id currently held in state, whichever phase the manager is
    /// in.
    pub fn epoch_id(&self) -> (id: u64)
        ensures
            id == self.spec_epoch_id(),
    {
        self.state.kind.epoch_id()
    }

    /// Whether the manager is accumulating votes for a close, as opposed
    /// to reading a decided close out. The integration replaces its
    /// per-epoch barrier when a confirmation flips this back to
    /// accumulating.
    pub fn accepting_votes(&self) -> (accepting: bool)
        ensures
            accepting == self.is_closing(),
    {
        matches!(self.state.kind, EpochManagerStateKind::Closing { .. })
    }

    /// Phase A of a close: folds one source's vote into the accumulating
    /// epoch. Returns `true` when the vote was taken. Returns `false`
    /// without changing anything when the previous close's readout is still
    /// in progress; the caller must retry once the readout completes (the
    /// integration sleeps briefly between attempts).
    pub fn register_vote(
        &mut self,
        source_state: (NodeHandle, SourceState),
        request_termination: bool,
        request_commit: bool,
    ) -> (accepted: bool)
        requires
            old(self).inv(),
        ensures
            final(self).inv(),
            accepted == old(self).is_closing(),
            final(self).num_sources == old(self).num_sources,
            final(self).options == old(self).options,
            final(self).checkpoint_factory == old(self).checkpoint_factory,
            final(self).initial_epoch_id == old(self).initial_epoch_id,
            final(self).num_committed_closes == old(self).num_committed_closes,
            final(self).state.next_record_index_to_persist == old(self).state.next_record_index_to_persist,
            final(self).state.last_persisted_epoch_decision_instant == old(self).state.last_persisted_epoch_decision_instant,
            final(self).spec_epoch_id() == old(self).spec_epoch_id(),
            accepted ==> {
                &&& final(self).is_closing()
                &&& final(self).termination_requests@ == old(self).termination_requests@.push(
                    request_termination,
                )
                &&& final(self).commit_requests@ == old(self).commit_requests@.push(request_commit)
                &&& final(self).spec_collected_states() == old(self).spec_collected_states().insert(
                    source_state.0@,
                    source_state.1@,
                )
                &&& final(self).spec_terminate_verdict() == (old(self).spec_terminate_verdict()
                    && request_termination)
                &&& final(self).spec_commit_pending() == (old(self).spec_commit_pending()
                    || request_commit)
            },
            !accepted ==> *final(self) == *old(self),
    {
        let ghost prev = *self;
        match &mut self.state.kind {
            EpochManagerStateKind::Closing {
                should_terminate,
                should_commit,
                source_states,
                ..
            } => {
                // If anyone doesn't want to terminate, we don't terminate.
                *should_terminate = *should_terminate && request_termination;
                // If anyone wants to commit, we commit.
                *should_commit = *should_commit || request_commit;
                // Collect source states.
                source_states.insert(source_state.0, source_state.1);
                self.termination_requests = Ghost(
                    prev.termination_requests@.push(request_termination),
                );
                self.commit_requests = Ghost(prev.commit_requests@.push(request_commit));
                proof {
                    lemma_all_true_push(prev.termination_requests@, request_termination);
                    lemma_any_true_push(prev.commit_requests@, request_commit);
                }
                true
            },
            EpochManagerStateKind::Closed { .. } => false,
        }
    }

    /// Phases B and C of a close, run by every source once all of them have
    /// voted and passed the barrier. The first caller (state still
    /// `Closing`) decides the close from the folded votes, the
    /// record-counter reading `num_records`, and the instant `now`; every
    /// caller reads the same decision out; the last caller rolls the state
    /// over to the next epoch, advancing the epoch id iff the close
    /// committed.
    pub fn confirm_epoch_close(&mut self, num_records: usize, now: u64) -> (epoch: ClosedEpoch)
        requires
            old(self).inv(),
            old(self).spec_commit_pending() ==> old(self).spec_epoch_id() < u64::MAX,
        ensures
            final(self).inv(),
            final(self).num_sources == old(self).num_sources,
            final(self).options == old(self).options,
            final(self).checkpoint_factory == old(self).checkpoint_factory,
            final(self).initial_epoch_id == old(self).initial_epoch_id,
            // Every caller of one close receives the view this close's
            // decision data determines.
            spec_closed_epoch_matches(
                epoch,
                all_true(old(self).termination_requests@),
                old(self).spec_decided_action(num_records, now),
                old(self).spec_epoch_id(),
                old(self).spec_collected_states(),
                old(self).spec_decision_instant(now),
                old(self).options,
                old(self).checkpoint_factory,
            ),
            // The commit package exists iff some source requested a commit.
            (epoch.common_info is Some) == any_true(old(self).commit_requests@),
            // The persist-policy scalars advance exactly on a fresh
            // persisting decision.
            ({
                let action = old(self).spec_decided_action(num_records, now);
                if old(self).is_closing() && action.spec_should_persist() {
                    final(self).state.next_record_index_to_persist == num_records && final(self).state.last_persisted_epoch_decision_instant == now
                } else {
                    final(self).state.next_record_index_to_persist
                        == old(self).state.next_record_index_to_persist
                        && final(self).state.last_persisted_epoch_decision_instant
                        == old(self).state.last_persisted_epoch_decision_instant
                }
            }),
            // The state machine's step: the last confirmation opens the
            // next epoch, advancing the id iff the close committed; any
            // other confirmation leaves the close readable.
            ({
                let action = old(self).spec_decided_action(num_records, now);
                let confirmations: int = if old(self).is_closing() {
                    1
                } else {
                    old(self).state.kind->Closed_num_source_confirmations + 1
                };
                if confirmations == old(self).num_sources {
                    &&& final(self).is_closing()
                    &&& final(self).spec_epoch_id() == old(self).spec_epoch_id() + (
                    if action.spec_should_commit() {
                        1int
                    } else {
                        0int
                    })
                    &&& final(self).num_committed_closes@ == old(self).num_committed_closes@ + (
                    if action.spec_should_commit() {
                        1nat
                    } else {
                        0nat
                    })
                    &&& final(self).termination_requests@ == Seq::<bool>::empty()
                    &&& final(self).commit_requests@ == Seq::<bool>::empty()
                    &&& final(self).spec_collected_states() == Map::<
                        NodeHandleV,
                        SourceStateV,
                    >::empty()
                    &&& final(self).spec_terminate_verdict()
                    &&& !final(self).spec_commit_pending()
                } else {
                    &&& !final(self).is_closing()
                    &&& final(self).spec_epoch_id() == old(self).spec_epoch_id()
                    &&& final(self).num_committed_closes@ == old(self).num_committed_closes@
                    &&& final(self).termination_requests@ == old(self).termination_requests@
                    &&& final(self).commit_requests@ == old(self).commit_requests@
                    &&& final(self).spec_collected_states() == old(self).spec_collected_states()
                    &&& final(self).state.kind matches EpochManagerStateKind::Closed {
                        action: stored,
                        instant,
                        num_source_confirmations,
                        ..
                    } && stored == action && instant == old(self).spec_decision_instant(now)
                        && num_source_confirmations == confirmations
                }
            }),
    {
        let ghost prev = *self;
        let (epoch, next_kind) = match &mut self.state.kind {
            EpochManagerStateKind::Closing {
                epoch_id,
                should_terminate,
                should_commit,
                source_states,
            } => {
                // Phase B: this caller is the first past the barrier;
                // decide the close.
                let eid: u64 = *epoch_id;
                let terminating: bool = *should_terminate;
                let commit: bool = *should_commit;
                let mut taken = SourceStates::new();
                core::mem::swap(&mut taken, source_states);
                let action = if commit {
                    if persist_due(
                        num_records,
                        self.state.next_record_index_to_persist,
                        now,
                        self.state.last_persisted_epoch_decision_instant,
                        &self.options,
                    ) {
                        self.state.next_record_index_to_persist = num_records;
                        self.state.last_persisted_epoch_decision_instant = now;
                        Action::CommitAndPersist
                    } else {
                        Action::Commit
                    }
                } else {
                    Action::Nothing
                };
                let shared = Arc::new(taken);
                let epoch = compose_closed_epoch(
                    terminating,
                    &action,
                    eid,
                    &shared,
                    now,
                    &self.options,
                    &self.checkpoint_factory,
                );
                let next_kind = if self.num_sources == 1 {
                    // Sole participant: its readout is also the last.
                    let next_epoch_id = if action.should_commit() {
                        eid + 1
                    } else {
                        eid
                    };
                    Some(EpochManagerStateKind::new_closing(next_epoch_id))
                } else {
                    Some(
                        EpochManagerStateKind::Closed {
                            terminating,
                            action,
                            epoch_id: eid,
                            source_states: shared,
                            instant: now,
                            num_source_confirmations: 1,
                        },
                    )
                };
                (epoch, next_kind)
            },
            EpochManagerStateKind::Closed {
                terminating,
                action,
                epoch_id,
                source_states,
                instant,
                num_source_confirmations,
            } => {
                // Phase C only: read the stored decision out.
                let epoch = compose_closed_epoch(
                    *terminating,
                    action,
                    *epoch_id,
                    source_states,
                    *instant,
                    &self.options,
                    &self.checkpoint_factory,
                );
                let confirmations = *num_source_confirmations + 1;
                if confirmations == self.num_sources {
                    // This caller is the last one out: open the next epoch.
                    let next_epoch_id = if action.should_commit() {
                        *epoch_id + 1
                    } else {
                        *epoch_id
                    };
                    (epoch, Some(EpochManagerStateKind::new_closing(next_epoch_id)))
                } else {
                    *num_source_confirmations = confirmations;
                    (epoch, None)
                }
            },
        };
        if let Some(kind) = next_kind {
            self.state.kind = kind;
        }
        // Ghost bookkeeping: a reopening readout completes the close, so it
        // counts a committed close and clears the vote records.
        let ghost decided = prev.spec_decided_action(num_records, now);
        self.num_committed_closes = Ghost(
            if self.state.kind is Closing {
                prev.num_committed_closes@ + (if decided.spec_should_commit() {
                    1nat
                } else {
                    0nat
                })
            } else {
                prev.num_committed_closes@
            },
        );
        self.termination_requests = Ghost(
            if self.state.kind is Closing {
                Seq::empty()
            } else {
                prev.termination_requests@
            },
        );
        self.commit_requests = Ghost(
            if self.state.kind is Closing {
                Seq::empty()
            } else {
                prev.commit_requests@
            },
        );
        epoch
    }
}

} // verus!
