//! Drops a task's record once the coordinator reports its proof as submitted.
use vstd::prelude::*;

use crate::cache::{key_of, TaskCache, TaskCacheError};

verus! {

/// The coordinator's notice that the proof of a task was submitted.
pub struct SubmitProofRequest {
    pub task_id: String,
}

/// What became of one eviction. A failure is reported here and goes no
/// further: it is never raised to the notifier and never retried.
#[derive(Debug)]
pub enum Eviction {
    /// The record of the task is gone (or was never there).
    Deleted,
    /// The store could not remove it; the error says why.
    Failed(TaskCacheError),
}

/// Reacts to submission notices by deleting the matching task record from
/// the store it is handed.
pub struct ClearCacheCoordinatorListener {}

impl ClearCacheCoordinatorListener {
    /// Deletes the record of `req.task_id` from `task_cache`.
    pub fn on_proof_submitted(&self, task_cache: &mut TaskCache, req: &SubmitProofRequest) -> (r:
        Eviction)
        ensures
            r is Deleted ==> final(task_cache)@ == old(task_cache)@.remove(key_of(req.task_id@)),
            r matches Eviction::Failed(e) ==> e is StorageWrite && (final(task_cache)@ == old(
                task_cache,
            )@ || final(task_cache)@ == old(task_cache)@.remove(key_of(req.task_id@))),
            final(task_cache).root() == old(task_cache).root(),
    {
        match task_cache.delete_task(req.task_id.clone()) {
            Ok(()) => Eviction::Deleted,
            Err(e) => Eviction::Failed(e),
        }
    }
}

} // verus!
