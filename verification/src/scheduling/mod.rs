//! Ordering policies for resource-constrained task queues.

pub mod fair_fifo;
pub mod fit;
pub mod fit_laws;

pub use fair_fifo::FairFifoPolicy;
pub use fair_fifo::QueuedTask;

use vstd::prelude::*;

use crate::model::ResourceSnapshot;
use crate::model::TaskId;

verus! {

/// A bounded view of tasks eligible for scheduling.
#[derive(Debug)]
pub struct QueueSnapshot {
    /// Tasks in accepted order with their bypass history.
    pub tasks: Vec<QueuedTask>,
    /// Maximum number of candidates the scheduler may inspect this cycle.
    pub scan_budget: usize,
}

impl Default for QueueSnapshot {
    fn default() -> (snapshot: Self)
        ensures
            snapshot.tasks@.len() == 0,
            snapshot.scan_budget == 0,
    {
        QueueSnapshot { tasks: Vec::new(), scan_budget: 0 }
    }
}

/// Ordering strategy extension point; implementations only select candidate
/// IDs.
///
/// The policy receives a bounded queue snapshot and current resource usage. It
/// does not mutate task state or reserve resources; the execution engine makes
/// the final atomic reservation decision. Nothing is required of the returned
/// identifiers: the scheduler passes over those that it does not know.
pub trait SchedulingPolicy {
    /// Returns candidate IDs in preferred order without changing task state.
    fn order(&self, queue: &QueueSnapshot, resources: &ResourceSnapshot) -> (order: Vec<TaskId>);
}

} // verus!
