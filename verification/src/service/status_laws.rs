//! What a submission registry shows, keeps and forgets.

use vstd::prelude::*;

use super::execution_state::active_weight;
use super::execution_state::completed_weight;
use super::execution_state::lemma_evict_oldest;
use super::execution_state::reserve_post;
use super::execution_state::ActivePhase;
use super::execution_state::CompletedRecord;
use super::execution_state::Marker;
use super::execution_state::RegistryModel;
use super::execution_state::SubmissionToken;
use super::execution_state::SubmitErrorModel;
use super::execution_state::TaskExecutionServiceError;
use super::execution_state::TaskExecutionServiceState;
use super::task_status::TaskExecutionStats;
use super::task_status::TaskStatus;
use crate::text::decimal_text;
use crate::totals::lemma_total_counts;

verus! {

/// An identifier is reserved exactly when admission is not suspended and no
/// submission of it is active. The reservation gets a token of its own and keeps
/// the endpoint; no other identifier changes, and a refusal changes nothing.
pub proof fn law_identifiers_are_reserved_once<F>(
    before: RegistryModel<F>,
    after: RegistryModel<F>,
    id: u64,
    cancel: F,
    result: Result<SubmissionToken, TaskExecutionServiceError>,
    other: u64,
)
    requires
        before.valid(),
        before.issued < u64::MAX,
        reserve_post(before, after, id, cancel, result),
    ensures
        result is Ok <==> !before.suspended && !before.active.contains_key(id),
        before.suspended ==> (result matches Err(error) && error@ is Suspended),
        !before.suspended ==> (result matches Err(error) ==> error@
            == SubmitErrorModel::DuplicateTask(id)),
        result is Err ==> after == before,
        result matches Ok(token) ==> {
            &&& after.active.contains_key(id)
            &&& after.active[id].token == token
            &&& after.active[id].phase is Submitting
            &&& after.active[id].cancel == cancel
            &&& !after.completed.contains_key(id)
            &&& before.active.contains_key(other) ==> before.active[other].token != token
            &&& before.completed.contains_key(other) ==> before.completed[other].token != token
        },
        other != id ==> {
            &&& after.active.contains_key(other) == before.active.contains_key(other)
            &&& after.completed.contains_key(other) == before.completed.contains_key(other)
            &&& before.active.contains_key(other) ==> after.active[other] == before.active[other]
            &&& before.completed.contains_key(other) ==> after.completed[other]
                == before.completed[other]
        },
        after.order == before.order,
        after.suspended == before.suspended,
        after.history_capacity == before.history_capacity,
{
}

/// An active submission shows that it was accepted or runs, and nothing before
/// either; a finished one shows how it ended; anything else shows nothing.
pub proof fn law_statuses_are_those_of_the_latest_submission<F>(
    state: TaskExecutionServiceState<F>,
    id: u64,
    status: Option<TaskStatus>,
)
    requires
        call_ensures(TaskExecutionServiceState::<F>::status, (&state, id), status),
    ensures
        state@.active.contains_key(id) ==> match state@.active[id].phase {
            ActivePhase::Submitting => status is None,
            ActivePhase::Submitted => status == Some(TaskStatus::Submitted),
            ActivePhase::Running => status == Some(TaskStatus::Running),
        },
        !state@.active.contains_key(id) && state@.completed.contains_key(id) ==> status == Some(
            state@.completed[id].status,
        ),
        !state@.active.contains_key(id) && !state@.completed.contains_key(id) ==> status is None,
        state@.status(id) == status,
{
}

/// A reservation is accepted, and an accepted submission starts, only under its own
/// token and only once; the submission keeps its token and its endpoint, and no
/// other one changes.
pub proof fn law_submissions_advance_under_their_token<F>(
    m: RegistryModel<F>,
    id: u64,
    token: SubmissionToken,
    other: u64,
)
    requires
        m.valid(),
    ensures
        m.can_accept(id, token) <==> m.active.contains_key(id) && m.active[id].token == token
            && m.active[id].phase is Submitting,
        m.can_start(id, token) <==> m.active.contains_key(id) && m.active[id].token == token
            && m.active[id].phase is Submitted,
        m.can_accept(id, token) ==> {
            let next = m.accepted(id);
            &&& next.active.dom() == m.active.dom()
            &&& next.active[id].phase is Submitted
            &&& next.active[id].token == token
            &&& next.active[id].cancel == m.active[id].cancel
            &&& next.active[id].previous is None
            &&& other != id ==> next.active[other] == m.active[other]
            &&& next.completed == m.completed
        },
        m.can_start(id, token) ==> {
            let next = m.started(id);
            &&& next.active.dom() == m.active.dom()
            &&& next.active[id].phase is Running
            &&& next.active[id].token == token
            &&& next.active[id].cancel == m.active[id].cancel
            &&& other != id ==> next.active[other] == m.active[other]
            &&& next.completed == m.completed
            &&& next.order == m.order
        },
{
    if m.can_accept(id, token) {
        assert(m.accepted(id).active.dom() =~= m.active.dom());
    }
    if m.can_start(id, token) {
        assert(m.started(id).active.dom() =~= m.active.dom());
    }
}

/// Whether `after` is `before` without its `count` oldest completions: what they
/// left behind is gone, and everything else is as it was.
pub open spec fn is_without_oldest<F>(
    before: RegistryModel<F>,
    after: RegistryModel<F>,
    count: int,
) -> bool {
    let gone = before.order.take(count);
    &&& 0 <= count <= before.order.len()
    &&& after.order == before.order.skip(count)
    &&& forall|id: u64| #[trigger]
        after.completed.contains_key(id) <==> before.completed.contains_key(id) && !gone.contains(
            (id, before.completed[id].token),
        )
    &&& forall|id: u64| #[trigger]
        after.completed.contains_key(id) ==> after.completed[id] == before.completed[id]
    &&& after.active.dom() == before.active.dom()
    &&& forall|id: u64| #[trigger]
        after.active.contains_key(id) ==> {
            &&& after.active[id].token == before.active[id].token
            &&& after.active[id].phase == before.active[id].phase
            &&& after.active[id].cancel == before.active[id].cancel
        }
    &&& after.suspended == before.suspended
    &&& after.history_capacity == before.history_capacity
    &&& after.issued == before.issued
}

proof fn lemma_oldest_step<F>(before: RegistryModel<F>, after: RegistryModel<F>, count: int)
    requires
        before.consistent(),
        before.active.dom().finite(),
        before.completed.dom().finite(),
        before.order.len() > 0,
        is_without_oldest(before.evict_oldest(), after, count),
    ensures
        is_without_oldest(before, after, count + 1),
{
    let next = before.evict_oldest();
    let oldest = before.order[0];
    let gone = before.order.take(count + 1);
    let later = next.order.take(count);
    lemma_evict_oldest(before);
    assert(next.order =~= before.order.skip(1));
    assert(after.order =~= before.order.skip(count + 1));
    assert forall|m: Marker| #[trigger] gone.contains(m) <==> m == oldest || later.contains(m) by {
        if gone.contains(m) {
            let i = choose|i: int| 0 <= i < gone.len() && gone[i] == m;
            if i > 0 {
                assert(later[i - 1] == m);
            }
        }
        if later.contains(m) {
            let i = choose|i: int| 0 <= i < later.len() && later[i] == m;
            assert(gone[i + 1] == m);
        }
        assert(gone[0] == oldest);
    }
    assert forall|id: u64| #[trigger]
        next.completed.contains_key(id) <==> before.completed.contains_key(id) && (
        id, before.completed[id].token) != oldest by {
    }
    assert forall|id: u64| #[trigger]
        after.completed.contains_key(id) <==> before.completed.contains_key(id) && !gone.contains(
            (id, before.completed[id].token),
        ) by {
        assert(next.completed.contains_key(id) <==> before.completed.contains_key(id) && (
        id, before.completed[id].token) != oldest);
        assert(gone.contains((id, before.completed[id].token)) <==> (
        id, before.completed[id].token) == oldest || later.contains(
            (id, before.completed[id].token),
        ));
    }
    assert forall|id: u64| #[trigger] after.completed.contains_key(id) implies after.completed[id]
        == before.completed[id] by {
        assert(next.completed.contains_key(id));
    }
    assert(after.active.dom() =~= before.active.dom());
    assert forall|id: u64| #[trigger] after.active.contains_key(id) implies {
        &&& after.active[id].token == before.active[id].token
        &&& after.active[id].phase == before.active[id].phase
        &&& after.active[id].cancel == before.active[id].cancel
    } by {
        assert(next.active.contains_key(id));
    }
}

/// Forgetting drops the oldest completions, in the order they finished, until the
/// history fits its capacity, and stops there.
pub proof fn law_the_oldest_completions_are_forgotten<F>(m: RegistryModel<F>) -> (count: int)
    requires
        m.consistent(),
        m.active.dom().finite(),
        m.completed.dom().finite(),
    ensures
        is_without_oldest(m, m.evicted(), count),
        m.completed.len() <= m.history_capacity ==> count == 0,
        m.completed.len() > m.history_capacity ==> m.evicted().completed.len()
            == m.history_capacity,
    decreases m.order.len(),
{
    if m.completed.len() <= m.history_capacity || m.order.len() == 0 {
        assert(m.order.skip(0) =~= m.order);
        if m.completed.len() > 0 {
            let id = m.completed.dom().choose();
            assert(m.completed.contains_key(id));
            assert(m.order.contains((id, m.completed[id].token)));
        }
        0
    } else {
        lemma_evict_oldest(m);
        let next = m.evict_oldest();
        let more = law_the_oldest_completions_are_forgotten(next);
        lemma_oldest_step(m, m.evicted(), more);
        assert(next.completed.len() >= m.completed.len() - 1);
        assert(next.completed.len() >= m.history_capacity);
        if next.completed.len() == m.history_capacity {
            assert(next.evicted() == next);
        }
        more + 1
    }
}

/// A submission that ends is no longer active. Where a history is kept it is the
/// newest completion, with its status, and the oldest completions make way for it;
/// other active submissions stay.
pub proof fn law_completions_join_the_history<F>(
    m: RegistryModel<F>,
    id: u64,
    token: SubmissionToken,
    status: TaskStatus,
    other: u64,
) -> (count: int)
    requires
        m.valid(),
        m.is_active(id, token),
    ensures
        m.active.contains_key(id) && m.active[id].token == token,
        !m.finished(id, token, status).active.contains_key(id),
        other != id ==> (m.finished(id, token, status).active.contains_key(other)
            <==> m.active.contains_key(other)),
        other != id && m.active.contains_key(other) ==> {
            let next = m.finished(id, token, status).active[other];
            next.token == m.active[other].token && next.phase == m.active[other].phase
                && next.cancel == m.active[other].cancel
        },
        m.history_capacity == 0 ==> m.finished(id, token, status).completed.dom()
            == Set::<u64>::empty(),
        m.history_capacity > 0 ==> {
            let next = m.finished(id, token, status);
            &&& next.completed.contains_key(id)
            &&& next.completed[id].status == status
            &&& next.completed[id].token == token
            &&& next.order.len() > 0 && next.order.last() == (id, token)
            &&& next.completed.len() == vstd::math::min(
                m.completed.len() as int + 1,
                m.history_capacity as int,
            )
        },
        other != id && m.finished(id, token, status).completed.contains_key(other)
            ==> m.completed.contains_key(other) && m.finished(id, token, status).completed[other]
            == m.completed[other],
{
    let ended = m.ended(id);
    let record = CompletedRecord { token, status };
    super::execution_state::lemma_unshadowed(m, id, ended);
    assert(!m.completed.contains_key(id));
    if m.history_capacity > 0 {
        let added = ended.appended(id, record);
        super::execution_state::lemma_appended(ended, id, record);
        super::execution_state::lemma_newest_survives(added, id, record);
        let count = law_the_oldest_completions_are_forgotten(added);
        let next = m.finished(id, token, status);
        assert(next == added.evicted());
        assert(added.completed.len() == m.completed.len() + 1);
        assert(added.order.last() == (id, token));
        if count == added.order.len() {
            let gone = added.order.take(count);
            assert(gone[added.order.len() - 1] == (id, token));
            assert(gone.contains((id, token)));
            assert(next.completed.contains_key(id));
        }
        assert(next.order.last() == added.order.last());
        if other != id && m.active.contains_key(other) {
            assert(added.active.contains_key(other));
            assert(next.active.contains_key(other));
        }
        if next.active.contains_key(other) {
            assert(added.active.contains_key(other));
        }
        assert(!added.active.contains_key(id));
        if next.active.contains_key(id) {
            assert(added.active.dom().contains(id));
        }
        count
    } else {
        assert(m.completed.dom() =~= Set::<u64>::empty()) by {
            if exists|k: u64| m.completed.contains_key(k) {
                let k = choose|k: u64| m.completed.contains_key(k);
                assert(m.completed.dom().remove(k).len() < m.completed.dom().len());
            }
        }
        0
    }
}

/// Discarding a submission concerns it alone: under its own token it is no longer
/// active or completed, and any other identifier keeps its place or, where the
/// history is over its capacity, is forgotten; a token that is neither active nor
/// completed changes nothing.
pub proof fn law_discarding_concerns_one_submission<F>(
    m: RegistryModel<F>,
    id: u64,
    token: SubmissionToken,
    other: u64,
)
    requires
        m.valid(),
    ensures
        !m.discarded(id, token).active.contains_key(id) || m.active[id].token != token,
        !m.is_active(id, token) && !m.is_completed(id, token) ==> m.discarded(id, token) == m,
        m.is_completed(id, token) && !m.active.contains_key(id) ==> {
            let next = m.discarded(id, token);
            &&& !next.completed.contains_key(id)
            &&& next.active == m.active
            &&& other != id ==> next.completed.contains_key(other) == m.completed.contains_key(
                other,
            )
            &&& other != id && m.completed.contains_key(other) ==> next.completed[other]
                == m.completed[other]
        },
        m.is_active(id, token) && m.active[id].previous is None ==> {
            let next = m.discarded(id, token);
            &&& next.active == m.active.remove(id)
            &&& next.completed == m.completed
            &&& next.order == m.order
        },
        m.is_active(id, token) && m.active[id].previous is Some && m.completed.len()
            < m.history_capacity ==> {
            let next = m.discarded(id, token);
            &&& next.active == m.active.remove(id)
            &&& next.completed == m.completed.insert(id, m.active[id].previous->0)
            &&& next.order == m.order
        },
{
    if m.is_active(id, token) && m.active[id].previous is Some {
        let record = m.active[id].previous->0;
        let back = m.unshadowed(id, record);
        super::execution_state::lemma_restored(m, id, record);
        let count = law_the_oldest_completions_are_forgotten(back);
        assert(!back.active.contains_key(id));
    }
}

/// Counts are the numbers of submissions that show each status.
pub proof fn law_stats_count_what_is_shown<F>(
    state: TaskExecutionServiceState<F>,
    stats: TaskExecutionStats,
)
    requires
        state@.valid(),
        forall|id: u64| #[trigger]
            state@.completed.contains_key(id) ==> !state@.completed[id].status.active(),
        call_ensures(TaskExecutionServiceState::<F>::stats, (&state,), stats),
    ensures
        stats.submitted == state@.active.dom().filter(
            |id: u64| state@.active[id].phase is Submitted,
        ).len(),
        stats.running == state@.active.dom().filter(
            |id: u64| state@.active[id].phase is Running,
        ).len(),
        stats.succeeded == state@.completed.dom().filter(
            |id: u64| state@.completed[id].status is Succeeded,
        ).len(),
        stats.failed == state@.completed.dom().filter(
            |id: u64| state@.completed[id].status is Failed,
        ).len(),
        stats.panicked == state@.completed.dom().filter(
            |id: u64| state@.completed[id].status is Panicked,
        ).len(),
        stats.cancelled == state@.completed.dom().filter(
            |id: u64| state@.completed[id].status is Cancelled,
        ).len(),
        stats.total == stats.submitted + stats.running + stats.succeeded + stats.failed
            + stats.panicked + stats.cancelled,
{
    let m = state@;
    lemma_counts(m, TaskStatus::Submitted);
    lemma_counts(m, TaskStatus::Running);
    lemma_counts(m, TaskStatus::Succeeded);
    lemma_counts(m, TaskStatus::Failed);
    lemma_counts(m, TaskStatus::Panicked);
    lemma_counts(m, TaskStatus::Cancelled);
    assert(stats.count(TaskStatus::Submitted) == m.count(TaskStatus::Submitted));
    assert(stats.count(TaskStatus::Running) == m.count(TaskStatus::Running));
    assert(stats.count(TaskStatus::Succeeded) == m.count(TaskStatus::Succeeded));
    assert(stats.count(TaskStatus::Failed) == m.count(TaskStatus::Failed));
    assert(stats.count(TaskStatus::Panicked) == m.count(TaskStatus::Panicked));
    assert(stats.count(TaskStatus::Cancelled) == m.count(TaskStatus::Cancelled));
    assert(m.active.dom().filter(|id: u64| shows(m.active[id].phase, TaskStatus::Submitted))
        =~= m.active.dom().filter(|id: u64| m.active[id].phase is Submitted));
    assert(m.active.dom().filter(|id: u64| shows(m.active[id].phase, TaskStatus::Running))
        =~= m.active.dom().filter(|id: u64| m.active[id].phase is Running));
    assert(m.completed.dom().filter(|id: u64| m.completed[id].status == TaskStatus::Succeeded)
        =~= m.completed.dom().filter(|id: u64| m.completed[id].status is Succeeded));
    assert(m.completed.dom().filter(|id: u64| m.completed[id].status == TaskStatus::Failed)
        =~= m.completed.dom().filter(|id: u64| m.completed[id].status is Failed));
    assert(m.completed.dom().filter(|id: u64| m.completed[id].status == TaskStatus::Panicked)
        =~= m.completed.dom().filter(|id: u64| m.completed[id].status is Panicked));
    assert(m.completed.dom().filter(|id: u64| m.completed[id].status == TaskStatus::Cancelled)
        =~= m.completed.dom().filter(|id: u64| m.completed[id].status is Cancelled));
}

/// Whether a phase shows a status.
pub open spec fn shows(phase: ActivePhase, status: TaskStatus) -> bool {
    (phase is Submitted && status is Submitted) || (phase is Running && status is Running)
}

proof fn lemma_counts<F>(m: RegistryModel<F>, status: TaskStatus)
    requires
        m.valid(),
        forall|id: u64| #[trigger]
            m.completed.contains_key(id) ==> !m.completed[id].status.active(),
    ensures
        m.count(status) == m.active.dom().filter(|id: u64| shows(m.active[id].phase, status)).len()
            + m.completed.dom().filter(|id: u64| m.completed[id].status == status).len(),
        !status.active() ==> m.count(status) == m.completed.dom().filter(
            |id: u64| m.completed[id].status == status,
        ).len(),
        status.active() ==> m.count(status) == m.active.dom().filter(
            |id: u64| shows(m.active[id].phase, status),
        ).len(),
{
    lemma_total_counts(
        m.active,
        active_weight::<F>(status),
        |id: u64| shows(m.active[id].phase, status),
    );
    lemma_total_counts(
        m.completed,
        completed_weight(status),
        |id: u64| m.completed[id].status == status,
    );
    if status.active() {
        assert(m.completed.dom().filter(|id: u64| m.completed[id].status == status)
            =~= Set::<u64>::empty());
    } else {
        assert(m.active.dom().filter(|id: u64| shows(m.active[id].phase, status))
            =~= Set::<u64>::empty());
    }
}

/// What submission errors say.
pub proof fn law_submission_errors_are_described(error: TaskExecutionServiceError, text: String)
    requires
        call_ensures(TaskExecutionServiceError::message, (&error,), text),
    ensures
        match error@ {
            SubmitErrorModel::DuplicateTask(id) => text@ == "task "@ + decimal_text(id as nat)
                + " already exists"@,
            SubmitErrorModel::Suspended => text@ == "task execution service is suspended"@,
            SubmitErrorModel::Rejected(words) => text@ == words,
        },
{
}

/// Whether two registries admit alike: neither suspension nor capacity nor the
/// number of tokens differs.
pub open spec fn admits_alike<F>(a: RegistryModel<F>, b: RegistryModel<F>) -> bool {
    a.suspended == b.suspended && a.history_capacity == b.history_capacity && a.issued == b.issued
}

/// Only a reservation issues a token, and no step of a submission changes admission
/// or the capacity of the history.
pub proof fn law_steps_leave_admission_alone<F>(
    m: RegistryModel<F>,
    id: u64,
    token: SubmissionToken,
    status: TaskStatus,
    cancel: F,
)
    requires
        m.valid(),
        m.issued < u64::MAX,
    ensures
        m.can_accept(id, token) ==> admits_alike(m.accepted(id), m),
        m.can_start(id, token) ==> admits_alike(m.started(id), m),
        m.is_active(id, token) ==> admits_alike(m.finished(id, token, status), m),
        admits_alike(m.discarded(id, token), m),
        m.reserved(id, token, cancel).suspended == m.suspended,
        m.reserved(id, token, cancel).history_capacity == m.history_capacity,
        m.reserved(id, token, cancel).issued == m.issued + 1,
{
    if m.is_active(id, token) {
        let ended = m.ended(id);
        let record = CompletedRecord { token, status };
        super::execution_state::lemma_unshadowed(m, id, ended);
        assert(!m.completed.contains_key(id));
        super::execution_state::lemma_appended(ended, id, record);
        let count = law_the_oldest_completions_are_forgotten(ended.appended(id, record));
        if m.active[id].previous is Some {
            let shadowed = m.active[id].previous->0;
            super::execution_state::lemma_restored(m, id, shadowed);
            let back = law_the_oldest_completions_are_forgotten(m.unshadowed(id, shadowed));
        }
    }
}

/// A reservation keeps a finished record of its identifier aside, and acceptance
/// gives it up for good together with its place in the history.
pub proof fn law_shadowed_records_are_given_up_on_acceptance<F>(
    m: RegistryModel<F>,
    id: u64,
    token: SubmissionToken,
    cancel: F,
)
    requires
        m.valid(),
        m.reserve_error(id) is None,
    ensures
        ({
            let held = m.reserved(id, token, cancel);
            let taken = held.accepted(id);
            &&& held.active[id].previous is Some <==> m.completed.contains_key(id)
            &&& m.completed.contains_key(id) ==> held.active[id].previous == Some(m.completed[id])
            &&& held.order == m.order
            &&& taken.active[id].previous is None
            &&& !m.completed.contains_key(id) ==> taken.order == m.order
            &&& m.completed.contains_key(id) ==> taken.order.len() + 1 == m.order.len()
                && !taken.order.contains((id, m.completed[id].token))
        }),
{
    if m.completed.contains_key(id) {
        let marker = (id, m.completed[id].token);
        assert(m.order.contains(marker));
        let at = choose|at: int| 0 <= at < m.order.len() && m.order[at] == marker;
        crate::lists::lemma_without_at(m.order, marker, at);
        let left = m.order.remove(at);
        if left.contains(marker) {
            let k = choose|k: int| 0 <= k < left.len() && left[k] == marker;
            if k < at {
                assert(m.order[k] == marker);
            } else {
                assert(m.order[k + 1] == marker);
            }
        }
    }
}

} // verus!
