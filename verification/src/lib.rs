//! Epoch coordination core of a streaming pipeline.
//!
//! The [`manager::EpochManager`] synchronizes a fixed set of source
//! participants around epoch boundaries: it folds their termination and
//! commit votes, decides once per epoch whether to commit and whether to
//! persist a checkpoint, and hands every participant an identical view of
//! that decision.

pub mod checkpoint;
pub mod laws;
pub mod manager;
pub mod node;

pub use checkpoint::{CheckpointFactory, CheckpointWriter, SinkPersistQueue};
pub use manager::{
    Action, ClosedEpoch, EpochCommonInfo, EpochManager, EpochManagerOptions, EpochManagerState,
    EpochManagerStateKind,
};
pub use node::{is_restartable, NodeHandle, SourceState, SourceStates};
