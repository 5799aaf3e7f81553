//! Handles to the checkpoint storage collaborator.
//!
//! The physical checkpoint storage lives outside the core and is reached
//! only through these handles: the core clones the shared persist-queue
//! handle and scopes checkpoint writers to the epoch being persisted. The
//! integration resolves a handle to the backing queue or storage.

use vstd::prelude::*;

verus! {

/// Shared handle to the queue on which sinks enqueue records for
/// asynchronous durable persistence. The token identifies the physical
/// queue, which lives with the storage backend.
#[derive(Clone, Copy, Debug, PartialEq, Eq, Structural)]
pub struct SinkPersistQueue {
    pub token: u64,
}

/// Supplies the shared persist queue and constructs checkpoint writers on
/// demand.
#[derive(Clone, Copy, Debug, PartialEq, Eq, Structural)]
pub struct CheckpointFactory {
    pub queue: SinkPersistQueue,
}

impl CheckpointFactory {
    pub fn new(queue: SinkPersistQueue) -> (factory: CheckpointFactory)
        ensures
            factory.queue == queue,
    {
        CheckpointFactory { queue }
    }

    /// The shared persist queue.
    pub fn queue(&self) -> (queue: &SinkPersistQueue)
        ensures
            *queue == self.queue,
    {
        &self.queue
    }
}

/// Writer for one epoch's durable snapshot, scoped to that epoch's id.
#[derive(Clone, Copy, Debug, PartialEq, Eq, Structural)]
pub struct CheckpointWriter {
    pub factory: CheckpointFactory,
    pub epoch_id: u64,
}

impl CheckpointWriter {
    pub fn new(factory: CheckpointFactory, epoch_id: u64) -> (writer: CheckpointWriter)
        ensures
            writer.factory == factory,
            writer.epoch_id == epoch_id,
    {
        CheckpointWriter { factory, epoch_id }
    }
}

} // verus!
