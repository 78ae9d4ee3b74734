//! Counters of published lifecycle notifications.

use vstd::prelude::*;

verus! {

/// Publication admission counters. Acceptance reports enqueue or provider
/// admission only; it does not report subscriber handler completion.
#[derive(Debug, Clone, Copy, PartialEq, Eq, Structural)]
pub struct TaskEventNotificationStats {
    /// Events placed in the publisher's bounded queue.
    pub enqueued: u64,
    /// Events dropped because the queue was full.
    pub queue_full: u64,
    /// Events dropped after the queue closed or its worker exited.
    pub queue_closed: u64,
    /// Events accepted by at least one reported destination.
    pub accepted: u64,
    /// Events accepted by a provider that does not expose destinations.
    pub opaque_accepted: u64,
    /// Events with no reported accepting destination.
    pub unaccepted: u64,
    /// Events with both accepted and rejected destinations.
    pub partial_rejection: u64,
    /// Calls to the event bus that returned an error.
    pub publish_error: u64,
    /// Publisher worker panics.
    pub worker_panicked: u64,
}

impl Default for TaskEventNotificationStats {
    fn default() -> (stats: Self)
        ensures
            stats == (TaskEventNotificationStats {
                enqueued: 0,
                queue_full: 0,
                queue_closed: 0,
                accepted: 0,
                opaque_accepted: 0,
                unaccepted: 0,
                partial_rejection: 0,
                publish_error: 0,
                worker_panicked: 0,
            }),
    {
        TaskEventNotificationStats {
            enqueued: 0,
            queue_full: 0,
            queue_closed: 0,
            accepted: 0,
            opaque_accepted: 0,
            unaccepted: 0,
            partial_rejection: 0,
            publish_error: 0,
            worker_panicked: 0,
        }
    }
}

/// How many destinations accepted, filtered out or rejected an event.
#[derive(Debug, Clone, Copy, PartialEq, Eq, Structural)]
pub struct AdmissionSummary {
    /// Destinations that accepted the event.
    pub accepted: usize,
    /// Destinations whose filters excluded it.
    pub filtered: usize,
    /// Destinations that rejected it.
    pub rejected: usize,
}

/// What a provider reported of a published event.
#[derive(Debug, Clone, Copy, PartialEq, Eq, Structural)]
pub enum AdmissionOutcome {
    /// The provider accepted the event without naming destinations.
    OpaqueAccepted,
    /// Some destination accepted and none rejected.
    Accepted(AdmissionSummary),
    /// Some destination accepted and some rejected.
    PartiallyAccepted(AdmissionSummary),
    /// Destinations were reported, but none accepted.
    NoneAccepted(AdmissionSummary),
    /// No destination was reported.
    NoDestinations,
    /// An interceptor stopped the event.
    Dropped,
    /// An outcome that is not known here.
    Other,
}

/// How an event left the service for the publisher.
#[derive(Debug, Clone, Copy, PartialEq, Eq, Structural)]
pub enum EnqueueOutcome {
    /// The event waits to be published.
    Enqueued,
    /// The queue was full.
    Full,
    /// The queue was closed.
    Closed,
}

/// One more, as far as the counter goes.
pub open spec fn bumped(value: u64) -> u64 {
    if value == u64::MAX {
        value
    } else {
        (value + 1) as u64
    }
}

/// Increments a counter without wrapping its accumulated diagnostic value.
fn increment(value: u64) -> (next: u64)
    ensures
        next == bumped(value),
{
    if value == u64::MAX {
        value
    } else {
        value + 1
    }
}

/// The counters after a provider reported an outcome.
pub open spec fn admitted(
    stats: TaskEventNotificationStats,
    outcome: AdmissionOutcome,
) -> TaskEventNotificationStats {
    match outcome {
        AdmissionOutcome::OpaqueAccepted => TaskEventNotificationStats {
            opaque_accepted: bumped(stats.opaque_accepted),
            ..stats
        },
        AdmissionOutcome::Accepted(_) => TaskEventNotificationStats {
            accepted: bumped(stats.accepted),
            ..stats
        },
        AdmissionOutcome::PartiallyAccepted(_) => TaskEventNotificationStats {
            accepted: bumped(stats.accepted),
            partial_rejection: bumped(stats.partial_rejection),
            ..stats
        },
        _ => TaskEventNotificationStats { unaccepted: bumped(stats.unaccepted), ..stats },
    }
}

/// Adds one provider admission result to the corresponding observable counters.
pub fn record_admission(stats: &mut TaskEventNotificationStats, outcome: AdmissionOutcome)
    ensures
        *final(stats) == admitted(*old(stats), outcome),
{
    match outcome {
        AdmissionOutcome::OpaqueAccepted => {
            stats.opaque_accepted = increment(stats.opaque_accepted);
        },
        AdmissionOutcome::Accepted(_) => {
            stats.accepted = increment(stats.accepted);
        },
        AdmissionOutcome::PartiallyAccepted(_) => {
            stats.accepted = increment(stats.accepted);
            stats.partial_rejection = increment(stats.partial_rejection);
        },
        _ => {
            stats.unaccepted = increment(stats.unaccepted);
        },
    }
}

/// Counts a call to the event bus that returned an error.
pub fn record_publish_error(stats: &mut TaskEventNotificationStats)
    ensures
        *final(stats) == (TaskEventNotificationStats {
            publish_error: bumped(old(stats).publish_error),
            ..*old(stats)
        }),
{
    stats.publish_error = increment(stats.publish_error);
}

/// Counts how an event left the service for the publisher.
pub fn record_enqueue(stats: &mut TaskEventNotificationStats, outcome: EnqueueOutcome)
    ensures
        *final(stats) == match outcome {
            EnqueueOutcome::Enqueued => TaskEventNotificationStats {
                enqueued: bumped(old(stats).enqueued),
                ..*old(stats)
            },
            EnqueueOutcome::Full => TaskEventNotificationStats {
                queue_full: bumped(old(stats).queue_full),
                ..*old(stats)
            },
            EnqueueOutcome::Closed => TaskEventNotificationStats {
                queue_closed: bumped(old(stats).queue_closed),
                ..*old(stats)
            },
        },
{
    match outcome {
        EnqueueOutcome::Enqueued => {
            stats.enqueued = increment(stats.enqueued);
        },
        EnqueueOutcome::Full => {
            stats.queue_full = increment(stats.queue_full);
        },
        EnqueueOutcome::Closed => {
            stats.queue_closed = increment(stats.queue_closed);
        },
    }
}

/// Every reported outcome counts as exactly one of accepted, opaquely accepted
/// and unaccepted; a partial rejection is also an acceptance.
pub proof fn law_each_outcome_counts_once(
    stats: TaskEventNotificationStats,
    outcome: AdmissionOutcome,
)
    requires
        stats.accepted < u64::MAX,
        stats.opaque_accepted < u64::MAX,
        stats.unaccepted < u64::MAX,
    ensures
        ({
            let after = admitted(stats, outcome);
            after.accepted + after.opaque_accepted + after.unaccepted == stats.accepted
                + stats.opaque_accepted + stats.unaccepted + 1
        }),
        admitted(stats, outcome).partial_rejection != stats.partial_rejection ==> outcome
            is PartiallyAccepted && admitted(stats, outcome).accepted == stats.accepted + 1,
{
}

/// An acceptance raises the accepted count, an opaque one the opaque count, a
/// partial one the accepted and the partial count, and anything else the
/// unaccepted count, each by one until it is at its largest; no other counter
/// moves.
pub proof fn law_outcomes_raise_their_own_counters(
    stats: TaskEventNotificationStats,
    outcome: AdmissionOutcome,
)
    ensures
        ({
            let after = admitted(stats, outcome);
            let full = outcome is Accepted;
            let part = outcome is PartiallyAccepted;
            let opaque_one = outcome is OpaqueAccepted;
            &&& after.accepted == vstd::math::min(
                stats.accepted + (if full || part {
                    1int
                } else {
                    0int
                }),
                0xffff_ffff_ffff_ffff,
            )
            &&& after.partial_rejection == vstd::math::min(
                stats.partial_rejection + (if part {
                    1int
                } else {
                    0int
                }),
                0xffff_ffff_ffff_ffff,
            )
            &&& after.opaque_accepted == vstd::math::min(
                stats.opaque_accepted + (if opaque_one {
                    1int
                } else {
                    0int
                }),
                0xffff_ffff_ffff_ffff,
            )
            &&& after.unaccepted == vstd::math::min(
                stats.unaccepted + (if full || part || opaque_one {
                    0int
                } else {
                    1int
                }),
                0xffff_ffff_ffff_ffff,
            )
            &&& after.enqueued == stats.enqueued
            &&& after.queue_full == stats.queue_full
            &&& after.queue_closed == stats.queue_closed
            &&& after.publish_error == stats.publish_error
            &&& after.worker_panicked == stats.worker_panicked
        }),
        forall|value: u64| #[trigger] bumped(value) == vstd::math::min(
            value + 1,
            0xffff_ffff_ffff_ffff,
        ),
{
}

} // verus!
