//! Progress of submissions and counts over them.

use vstd::prelude::*;

verus! {

/// Status of a task managed by an execution registry.
///
/// The status describes service-level progress, not the typed task result. The
/// task's handle remains the source of truth for its success or error value.
#[derive(Debug, Clone, Copy, PartialEq, Eq, Structural)]
pub enum TaskStatus {
    /// The task was accepted but has not started running.
    Submitted,
    /// A worker has started running the task.
    Running,
    /// The task completed successfully.
    Succeeded,
    /// The task ran and returned its own error value.
    Failed,
    /// The task panicked while running.
    Panicked,
    /// The task was cancelled before it started.
    Cancelled,
}

impl TaskStatus {
    /// Whether this status represents in-flight work.
    pub open spec fn active(self) -> bool {
        self == TaskStatus::Submitted || self == TaskStatus::Running
    }

    /// Returns whether this status represents in-flight work.
    pub fn is_active(self) -> (active: bool)
        ensures
            active == self.active(),
    {
        matches!(self, TaskStatus::Submitted | TaskStatus::Running)
    }
}

/// Count snapshot of an execution registry.
///
/// Counters are derived from accepted active tasks and bounded terminal
/// records retained for inspection. They are not lifetime totals.
#[derive(Debug, Clone, Copy, PartialEq, Eq, Structural)]
pub struct TaskExecutionStats {
    /// Number of accepted active and retained terminal tasks currently visible.
    pub total: usize,
    /// Number of accepted tasks not yet started.
    pub submitted: usize,
    /// Number of tasks currently running.
    pub running: usize,
    /// Number of tasks that completed successfully.
    pub succeeded: usize,
    /// Number of tasks that returned an error.
    pub failed: usize,
    /// Number of tasks that panicked.
    pub panicked: usize,
    /// Number of tasks cancelled before start.
    pub cancelled: usize,
}

impl Default for TaskExecutionStats {
    fn default() -> (stats: Self)
        ensures
            stats == TaskExecutionStats::none(),
    {
        TaskExecutionStats {
            total: 0,
            submitted: 0,
            running: 0,
            succeeded: 0,
            failed: 0,
            panicked: 0,
            cancelled: 0,
        }
    }
}

impl TaskExecutionStats {
    /// A snapshot of nothing.
    pub open spec fn none() -> TaskExecutionStats {
        TaskExecutionStats {
            total: 0,
            submitted: 0,
            running: 0,
            succeeded: 0,
            failed: 0,
            panicked: 0,
            cancelled: 0,
        }
    }

    /// The count of one status.
    pub open spec fn count(self, status: TaskStatus) -> usize {
        match status {
            TaskStatus::Submitted => self.submitted,
            TaskStatus::Running => self.running,
            TaskStatus::Succeeded => self.succeeded,
            TaskStatus::Failed => self.failed,
            TaskStatus::Panicked => self.panicked,
            TaskStatus::Cancelled => self.cancelled,
        }
    }

    /// Whether the total is the sum of the counts.
    pub open spec fn adds_up(self) -> bool {
        self.total == self.submitted + self.running + self.succeeded + self.failed + self.panicked
            + self.cancelled
    }

    /// Adds one task status to this snapshot.
    pub fn add_status(&mut self, status: TaskStatus)
        requires
            old(self).adds_up(),
            old(self).total < usize::MAX,
        ensures
            final(self).adds_up(),
            final(self).total == old(self).total + 1,
            forall|s: TaskStatus|
                #![trigger final(self).count(s)]
                final(self).count(s) == old(self).count(s) + (if s == status {
                    1int
                } else {
                    0int
                }),
    {
        self.total = self.total + 1;
        match status {
            TaskStatus::Submitted => {
                self.submitted = self.submitted + 1;
            },
            TaskStatus::Running => {
                self.running = self.running + 1;
            },
            TaskStatus::Succeeded => {
                self.succeeded = self.succeeded + 1;
            },
            TaskStatus::Failed => {
                self.failed = self.failed + 1;
            },
            TaskStatus::Panicked => {
                self.panicked = self.panicked + 1;
            },
            TaskStatus::Cancelled => {
                self.cancelled = self.cancelled + 1;
            },
        }
    }
}

/// A task is active while it is submitted or running, and not once it succeeded,
/// failed, panicked or was cancelled.
pub proof fn law_finished_tasks_are_not_active(status: TaskStatus, active: bool)
    requires
        call_ensures(TaskStatus::is_active, (status,), active),
    ensures
        active <==> !(status is Succeeded || status is Failed || status is Panicked
            || status is Cancelled),
        status.active() == active,
{
}

/// A count that adds up counts every task once, under its own status, and a new
/// one counts nothing.
pub proof fn law_counts_add_up(stats: TaskExecutionStats, fresh: TaskExecutionStats)
    requires
        stats.adds_up(),
        call_ensures(TaskExecutionStats::default, (), fresh),
    ensures
        stats.total == stats.count(TaskStatus::Submitted) + stats.count(TaskStatus::Running)
            + stats.count(TaskStatus::Succeeded) + stats.count(TaskStatus::Failed) + stats.count(
            TaskStatus::Panicked,
        ) + stats.count(TaskStatus::Cancelled),
        stats.count(TaskStatus::Submitted) == stats.submitted,
        stats.count(TaskStatus::Running) == stats.running,
        stats.count(TaskStatus::Succeeded) == stats.succeeded,
        stats.count(TaskStatus::Failed) == stats.failed,
        stats.count(TaskStatus::Panicked) == stats.panicked,
        stats.count(TaskStatus::Cancelled) == stats.cancelled,
        fresh.total == 0 && fresh.submitted == 0 && fresh.running == 0 && fresh.succeeded == 0
            && fresh.failed == 0 && fresh.panicked == 0 && fresh.cancelled == 0,
{
}

} // verus!
