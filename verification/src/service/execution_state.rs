//! Registry of submissions to an executor, with a bounded history.

use std::collections::BTreeMap;

use vstd::prelude::*;

use super::task_status::TaskExecutionStats;
use super::task_status::TaskStatus;
use crate::keyed::keys_of;
use crate::keyed::lists_keys;
use crate::lists::lemma_without_absent;
use crate::lists::lemma_without_at;
use crate::lists::lemma_without_contents;
use crate::lists::without;
use crate::text::decimal;
use crate::text::decimal_text;
use crate::text::join3;
use crate::totals::lemma_listed_step;
use crate::totals::lemma_total_listed;
use crate::totals::listed_total;
use crate::totals::total;

verus! {

broadcast use {vstd::std_specs::btree::group_btree_axioms, vstd::laws_cmp::group_laws_cmp};

/// Error returned when a task cannot be submitted for execution.
#[derive(Debug)]
pub enum TaskExecutionServiceError {
    /// Another active task already uses the same task ID.
    DuplicateTask(u64),
    /// The service is suspended and temporarily refuses new tasks.
    Suspended,
    /// The underlying thread pool rejected the task.
    Rejected(String),
}

/// Content of a [`TaskExecutionServiceError`].
#[verifier::ext_equal]
pub enum SubmitErrorModel {
    DuplicateTask(u64),
    Suspended,
    Rejected(Seq<char>),
}

impl View for TaskExecutionServiceError {
    type V = SubmitErrorModel;

    open spec fn view(&self) -> SubmitErrorModel {
        match self {
            TaskExecutionServiceError::DuplicateTask(id) => SubmitErrorModel::DuplicateTask(*id),
            TaskExecutionServiceError::Suspended => SubmitErrorModel::Suspended,
            TaskExecutionServiceError::Rejected(text) => SubmitErrorModel::Rejected(text@),
        }
    }
}

impl SubmitErrorModel {
    /// The text that describes this error.
    pub open spec fn message(self) -> Seq<char> {
        match self {
            SubmitErrorModel::DuplicateTask(id) => "task "@ + decimal_text(id as nat)
                + " already exists"@,
            SubmitErrorModel::Suspended => "task execution service is suspended"@,
            SubmitErrorModel::Rejected(text) => text,
        }
    }
}

impl TaskExecutionServiceError {
    /// Returns the text that describes this error.
    pub fn message(&self) -> (text: String)
        ensures
            text@ == self@.message(),
    {
        match self {
            TaskExecutionServiceError::DuplicateTask(id) => join3(
                "task ",
                decimal(*id).as_str(),
                " already exists",
            ),
            TaskExecutionServiceError::Suspended => {
                "task execution service is suspended".to_owned()
            },
            TaskExecutionServiceError::Rejected(text) => text.clone(),
        }
    }
}

/// Identity of one submission, distinct even when its business ID is reused.
#[derive(Debug, Clone, Copy, PartialEq, Eq, Structural)]
pub struct SubmissionToken {
    number: u64,
}

impl SubmissionToken {
    /// How many tokens were issued before this one.
    pub closed spec fn number(self) -> u64 {
        self.number
    }
}

/// Lifecycle phase before a task reaches a terminal status.
#[derive(Debug, Clone, Copy, PartialEq, Eq, Structural)]
pub enum ActivePhase {
    /// The submission is reserved locally but not yet accepted by the pool.
    Submitting,
    /// The pool accepted the submission but has not started it.
    Submitted,
    /// A worker is executing the task.
    Running,
}

/// Lightweight terminal status retained for a bounded interval.
#[derive(Debug, Clone, Copy, PartialEq, Eq, Structural)]
pub struct CompletedRecord {
    /// Identity of the completed submission.
    pub token: SubmissionToken,
    /// Terminal status observed for the submission.
    pub status: TaskStatus,
}

/// One active submission and its cancellation endpoint.
#[derive(Debug)]
pub struct ActiveRecord<F> {
    /// Identity of the submission owning this record.
    pub token: SubmissionToken,
    /// Current lifecycle phase.
    pub phase: ActivePhase,
    /// Endpoint used to cancel the task before execution starts.
    pub cancel: F,
    /// Previous terminal status restored if the pool rejects this submission.
    pub previous: Option<CompletedRecord>,
}

/// A submission's place in the completion order.
pub type Marker = (u64, SubmissionToken);

/// Content of a [`TaskExecutionServiceState`].
#[verifier::ext_equal]
pub struct RegistryModel<F> {
    /// Whether new reservations are rejected.
    pub suspended: bool,
    /// Submissions that have not reached a terminal state.
    pub active: Map<u64, ActiveRecord<F>>,
    /// Retained terminal status of each task.
    pub completed: Map<u64, CompletedRecord>,
    /// Completion order used to evict the oldest retained records.
    pub order: Seq<Marker>,
    /// Maximum number of terminal records retained.
    pub history_capacity: usize,
    /// Number of tokens issued.
    pub issued: u64,
}

/// The status that an active submission shows.
pub open spec fn shown(phase: ActivePhase) -> Option<TaskStatus> {
    match phase {
        ActivePhase::Submitting => None,
        ActivePhase::Submitted => Some(TaskStatus::Submitted),
        ActivePhase::Running => Some(TaskStatus::Running),
    }
}

/// One for each active submission that shows a status.
pub open spec fn active_weight<F>(status: TaskStatus) -> spec_fn(ActiveRecord<F>) -> nat {
    |r: ActiveRecord<F>|
        if shown(r.phase) == Some(status) {
            1nat
        } else {
            0nat
        }
}

/// One for each retained record of a status.
pub open spec fn completed_weight(status: TaskStatus) -> spec_fn(CompletedRecord) -> nat {
    |r: CompletedRecord|
        if r.status == status {
            1nat
        } else {
            0nat
        }
}

impl<F> RegistryModel<F> {
    /// An empty registry.
    pub open spec fn empty(history_capacity: usize) -> Self {
        RegistryModel {
            suspended: false,
            active: Map::empty(),
            completed: Map::empty(),
            order: Seq::empty(),
            history_capacity,
            issued: 0,
        }
    }

    /// Whether an active ID still denotes this exact submission.
    pub open spec fn is_active(self, id: u64, token: SubmissionToken) -> bool {
        self.active.contains_key(id) && self.active[id].token == token
    }

    /// Whether the retained record of an ID is this exact submission.
    pub open spec fn is_completed(self, id: u64, token: SubmissionToken) -> bool {
        self.completed.contains_key(id) && self.completed[id].token == token
    }

    /// Whether a submission shadows this completed one.
    pub open spec fn is_shadowed(self, id: u64, token: SubmissionToken) -> bool {
        self.active.contains_key(id) && self.active[id].previous is Some
            && self.active[id].previous->0.token == token
    }

    /// What every reachable registry satisfies: an ID is active or completed but
    /// not both, the completion order names every retained or shadowed record
    /// once and nothing else, tokens were issued, and the history is bounded.
    pub open spec fn valid(self) -> bool {
        &&& self.active.dom().finite()
        &&& self.completed.dom().finite()
        &&& self.completed.len() <= self.history_capacity
        &&& self.consistent()
    }

    /// Everything but the bound on the history.
    pub open spec fn consistent(self) -> bool {
        &&& self.order.no_duplicates()
        &&& forall|id: u64| #[trigger]
            self.active.contains_key(id) ==> !self.completed.contains_key(id)
                && self.active[id].token.number() < self.issued
        &&& forall|id: u64| #[trigger]
            self.completed.contains_key(id) ==> self.order.contains(
                (id, self.completed[id].token),
            ) && self.completed[id].token.number() < self.issued
        &&& forall|id: u64| #[trigger]
            self.active.contains_key(id) && self.active[id].previous is Some ==> {
                &&& self.order.contains((id, self.active[id].previous->0.token))
                &&& self.active[id].previous->0.token.number() < self.active[id].token.number()
            }
        &&& forall|i: int|
            0 <= i < self.order.len() ==> {
                let m = #[trigger] self.order[i];
                self.is_completed(m.0, m.1) || self.is_shadowed(m.0, m.1)
            }
    }

    /// Why a reservation is refused, if it is.
    pub open spec fn reserve_error(self, id: u64) -> Option<SubmitErrorModel> {
        if self.suspended {
            Some(SubmitErrorModel::Suspended)
        } else if self.active.contains_key(id) {
            Some(SubmitErrorModel::DuplicateTask(id))
        } else {
            None
        }
    }

    /// The registry with a reservation; a retained record is shadowed.
    pub open spec fn reserved(self, id: u64, token: SubmissionToken, cancel: F) -> Self {
        RegistryModel {
            active: self.active.insert(
                id,
                ActiveRecord {
                    token,
                    phase: ActivePhase::Submitting,
                    cancel,
                    previous: if self.completed.contains_key(id) {
                        Some(self.completed[id])
                    } else {
                        None
                    },
                },
            ),
            completed: self.completed.remove(id),
            issued: (self.issued + 1) as u64,
            ..self
        }
    }

    /// The completion order without what this submission shadows.
    pub open spec fn order_without_shadow(self, id: u64) -> Seq<Marker> {
        match self.active[id].previous {
            Some(record) => without(self.order, (id, record.token)),
            None => self.order,
        }
    }

    /// Whether acceptance concerns the current reservation.
    pub open spec fn can_accept(self, id: u64, token: SubmissionToken) -> bool {
        self.is_active(id, token) && self.active[id].phase == ActivePhase::Submitting
    }

    /// The registry after acceptance; what was shadowed is gone for good.
    pub open spec fn accepted(self, id: u64) -> Self {
        RegistryModel {
            active: self.active.insert(
                id,
                ActiveRecord { phase: ActivePhase::Submitted, previous: None, ..self.active[id] },
            ),
            order: self.order_without_shadow(id),
            ..self
        }
    }

    /// Whether a start concerns the current accepted submission.
    pub open spec fn can_start(self, id: u64, token: SubmissionToken) -> bool {
        self.is_active(id, token) && self.active[id].phase == ActivePhase::Submitted
    }

    /// The registry after a start.
    pub open spec fn started(self, id: u64) -> Self {
        RegistryModel {
            active: self.active.insert(
                id,
                ActiveRecord { phase: ActivePhase::Running, ..self.active[id] },
            ),
            ..self
        }
    }

    /// The registry without an active submission and what it shadows.
    pub open spec fn ended(self, id: u64) -> Self {
        RegistryModel {
            active: self.active.remove(id),
            order: self.order_without_shadow(id),
            ..self
        }
    }

    /// The registry after its oldest completion was forgotten.
    pub open spec fn evict_oldest(self) -> Self {
        let oldest = self.order[0];
        let rest = RegistryModel { order: self.order.drop_first(), ..self };
        if self.is_completed(oldest.0, oldest.1) {
            RegistryModel { completed: rest.completed.remove(oldest.0), ..rest }
        } else if self.is_shadowed(oldest.0, oldest.1) {
            RegistryModel {
                active: rest.active.insert(
                    oldest.0,
                    ActiveRecord { previous: None, ..rest.active[oldest.0] },
                ),
                ..rest
            }
        } else {
            rest
        }
    }

    /// The registry after its oldest completions were forgotten until the
    /// history fits.
    pub open spec fn evicted(self) -> Self
        decreases self.order.len(),
    {
        if self.completed.len() <= self.history_capacity || self.order.len() == 0 {
            self
        } else {
            self.evict_oldest().evicted()
        }
    }

    /// The registry with one more completion at the end of the order.
    pub open spec fn appended(self, id: u64, record: CompletedRecord) -> Self {
        RegistryModel {
            completed: self.completed.insert(id, record),
            order: self.order.push((id, record.token)),
            ..self
        }
    }

    /// The registry after a completion, if it keeps any.
    pub open spec fn remembered(self, id: u64, record: CompletedRecord) -> Self {
        if self.history_capacity == 0 {
            self
        } else {
            self.appended(id, record).evicted()
        }
    }

    /// The registry without an active submission, and with a record that the
    /// submission shadowed.
    pub open spec fn unshadowed(self, id: u64, record: CompletedRecord) -> Self {
        RegistryModel {
            active: self.active.remove(id),
            completed: self.completed.insert(id, record),
            ..self
        }
    }

    /// The registry after a submission finished.
    pub open spec fn finished(self, id: u64, token: SubmissionToken, status: TaskStatus) -> Self {
        self.ended(id).remembered(id, CompletedRecord { token, status })
    }

    /// The registry after an active submission was rejected: a record that it
    /// shadowed is visible again.
    pub open spec fn rejected(self, id: u64) -> Self {
        match self.active[id].previous {
            Some(record) => self.unshadowed(id, record).evicted(),
            None => RegistryModel { active: self.active.remove(id), ..self },
        }
    }

    /// The registry after a completed submission was rejected.
    pub open spec fn unremembered(self, id: u64, token: SubmissionToken) -> Self {
        RegistryModel {
            completed: self.completed.remove(id),
            order: without(self.order, (id, token)),
            ..self
        }
    }

    /// The registry after a submission was discarded.
    pub open spec fn discarded(self, id: u64, token: SubmissionToken) -> Self {
        if self.is_active(id, token) {
            self.rejected(id)
        } else if self.is_completed(id, token) {
            self.unremembered(id, token)
        } else {
            self
        }
    }

    /// The visible status of the latest submission.
    pub open spec fn status(self, id: u64) -> Option<TaskStatus> {
        if self.active.contains_key(id) {
            shown(self.active[id].phase)
        } else if self.completed.contains_key(id) {
            Some(self.completed[id].status)
        } else {
            None
        }
    }

    /// Number of submissions that show a status.
    pub open spec fn count(self, status: TaskStatus) -> nat {
        total(self.active, active_weight::<F>(status)) + total(
            self.completed,
            completed_weight(status),
        )
    }
}

/// Forgetting the oldest completion keeps a registry consistent.
pub proof fn lemma_evict_oldest<F>(m: RegistryModel<F>)
    requires
        m.consistent(),
        m.active.dom().finite(),
        m.completed.dom().finite(),
        m.order.len() > 0,
    ensures
        m.evict_oldest().consistent(),
        m.evict_oldest().active.dom().finite(),
        m.evict_oldest().completed.dom().finite(),
        m.evict_oldest().active.dom() == m.active.dom(),
        m.evict_oldest().completed.dom().subset_of(m.completed.dom()),
{
    let next = m.evict_oldest();
    let oldest = m.order[0];
    let rest = m.order.drop_first();
    assert forall|i: int, j: int|
        0 <= i < rest.len() && 0 <= j < rest.len() && i != j implies rest[i] != rest[j] by {
        assert(m.order[i + 1] != m.order[j + 1]);
    }
    assert forall|x: Marker| #[trigger] m.order.contains(x) && x != oldest implies rest.contains(
        x,
    ) by {
        let i = choose|i: int| 0 <= i < m.order.len() && m.order[i] == x;
        assert(rest[i - 1] == x);
    }
    assert(m.is_completed(oldest.0, oldest.1) || m.is_shadowed(oldest.0, oldest.1));
    assert(next.active.dom() =~= m.active.dom());
    assert forall|id: u64| #[trigger] next.active.contains_key(id) implies !next.completed.contains_key(
        id,
    ) && next.active[id].token.number() < next.issued by {
        assert(m.active.contains_key(id));
    }
    assert forall|id: u64| #[trigger] next.completed.contains_key(id) implies next.order.contains(
        (id, next.completed[id].token),
    ) && next.completed[id].token.number() < next.issued by {
        assert(m.completed.contains_key(id));
        assert(m.order.contains((id, m.completed[id].token)));
        if (id, m.completed[id].token) == oldest {
            assert(m.is_completed(oldest.0, oldest.1));
        }
    }
    assert forall|id: u64| #[trigger]
        next.active.contains_key(id) && next.active[id].previous is Some implies next.order.contains(
        (id, next.active[id].previous->0.token),
    ) && next.active[id].previous->0.token.number() < next.active[id].token.number() by {
        assert(m.active.contains_key(id));
        assert(m.active[id].previous is Some);
        assert(m.order.contains((id, m.active[id].previous->0.token)));
        if (id, m.active[id].previous->0.token) == oldest {
            assert(m.is_shadowed(oldest.0, oldest.1));
            assert(!m.completed.contains_key(id));
        }
    }
    assert forall|i: int| 0 <= i < next.order.len() implies ({
        let x = #[trigger] next.order[i];
        next.is_completed(x.0, x.1) || next.is_shadowed(x.0, x.1)
    }) by {
        let x = next.order[i];
        assert(m.order[i + 1] == x);
        assert(x != oldest);
        assert(m.is_completed(x.0, x.1) || m.is_shadowed(x.0, x.1));
        if x.0 == oldest.0 {
            if m.is_completed(x.0, x.1) {
                assert(m.completed.contains_key(x.0));
                assert(!m.active.contains_key(x.0));
                assert(m.is_completed(oldest.0, oldest.1));
            } else {
                assert(m.active.contains_key(x.0));
                assert(!m.completed.contains_key(x.0));
                assert(m.is_shadowed(oldest.0, oldest.1));
            }
        }
    }
}

/// Eviction keeps a registry consistent and bounds its history.
proof fn lemma_evicted<F>(m: RegistryModel<F>)
    requires
        m.consistent(),
        m.active.dom().finite(),
        m.completed.dom().finite(),
    ensures
        m.evicted().valid(),
        m.evicted().active.dom() == m.active.dom(),
        m.evicted().suspended == m.suspended,
        m.evicted().history_capacity == m.history_capacity,
        m.evicted().issued == m.issued,
    decreases m.order.len(),
{
    if m.completed.len() > m.history_capacity {
        if m.order.len() == 0 {
            let id = m.completed.dom().choose();
            assert(m.completed.contains_key(id));
            assert(m.order.contains((id, m.completed[id].token)));
        } else {
            lemma_evict_oldest(m);
            lemma_evicted(m.evict_oldest());
        }
    }
}

proof fn lemma_reserved<F>(m: RegistryModel<F>, id: u64, token: SubmissionToken, cancel: F)
    requires
        m.valid(),
        m.reserve_error(id) is None,
        token.number() == m.issued,
        m.issued < u64::MAX,
    ensures
        m.reserved(id, token, cancel).valid(),
{
    let next = m.reserved(id, token, cancel);
    assert(next.completed.dom() =~= m.completed.dom().remove(id));
    assert forall|x: u64| #[trigger] next.active.contains_key(x) implies !next.completed.contains_key(
        x,
    ) && next.active[x].token.number() < next.issued by {
        if x != id {
            assert(m.active.contains_key(x));
        }
    }
    assert forall|x: u64| #[trigger] next.completed.contains_key(x) implies next.order.contains(
        (x, next.completed[x].token),
    ) && next.completed[x].token.number() < next.issued by {
        assert(m.completed.contains_key(x));
    }
    assert forall|x: u64| #[trigger]
        next.active.contains_key(x) && next.active[x].previous is Some implies next.order.contains(
        (x, next.active[x].previous->0.token),
    ) && next.active[x].previous->0.token.number() < next.active[x].token.number() by {
        if x == id {
            assert(m.completed.contains_key(id));
        } else {
            assert(m.active.contains_key(x));
        }
    }
    assert forall|i: int| 0 <= i < next.order.len() implies ({
        let x = #[trigger] next.order[i];
        next.is_completed(x.0, x.1) || next.is_shadowed(x.0, x.1)
    }) by {
        let x = m.order[i];
        assert(m.is_completed(x.0, x.1) || m.is_shadowed(x.0, x.1));
    }
}

/// Dropping what a submission shadows keeps a registry consistent, whether the
/// submission stays active or not.
pub proof fn lemma_unshadowed<F>(m: RegistryModel<F>, id: u64, next: RegistryModel<F>)
    requires
        m.valid(),
        m.active.contains_key(id),
        next.order == m.order_without_shadow(id),
        next.completed == m.completed,
        next.issued == m.issued,
        next.history_capacity == m.history_capacity,
        next.active == m.active.remove(id) || (next.active == m.active.insert(id, next.active[id])
            && next.active[id].previous is None && next.active[id].token == m.active[id].token),
    ensures
        next.valid(),
        !next.order.contains((id, m.active[id].token)),
        forall|i: int| 0 <= i < next.order.len() ==> (#[trigger] next.order[i]).0 != id,
{
    if m.active[id].previous is Some {
        lemma_without_contents(m.order, (id, m.active[id].previous->0.token));
    }
    assert(next.active.dom().finite());
    assert forall|i: int| 0 <= i < next.order.len() implies (#[trigger] next.order[i]).0 != id by {
        let x = next.order[i];
        assert(next.order.contains(x));
        assert(m.order.contains(x));
        let k = choose|k: int| 0 <= k < m.order.len() && m.order[k] == x;
        assert(m.is_completed(m.order[k].0, m.order[k].1) || m.is_shadowed(
            m.order[k].0,
            m.order[k].1,
        ));
        if x.0 == id {
            assert(!m.completed.contains_key(id));
            assert(m.is_shadowed(id, x.1));
        }
    }
    assert forall|x: u64| #[trigger] next.active.contains_key(x) implies !next.completed.contains_key(
        x,
    ) && next.active[x].token.number() < next.issued by {
        assert(m.active.contains_key(x));
    }
    assert forall|x: u64| #[trigger] next.completed.contains_key(x) implies next.order.contains(
        (x, next.completed[x].token),
    ) && next.completed[x].token.number() < next.issued by {
        assert(m.completed.contains_key(x));
        assert(x != id) by {
            assert(!m.completed.contains_key(id));
        }
        assert(m.order.contains((x, m.completed[x].token)));
        if m.active[id].previous is Some {
            assert(next.order.contains((x, m.completed[x].token)));
        }
    }
    assert forall|x: u64| #[trigger]
        next.active.contains_key(x) && next.active[x].previous is Some implies next.order.contains(
        (x, next.active[x].previous->0.token),
    ) && next.active[x].previous->0.token.number() < next.active[x].token.number() by {
        assert(x != id);
        assert(m.active.contains_key(x));
        assert(next.active[x] == m.active[x]);
        assert(m.order.contains((x, m.active[x].previous->0.token)));
        if m.active[id].previous is Some {
            assert(next.order.contains((x, m.active[x].previous->0.token)));
        }
    }
    assert forall|i: int| 0 <= i < next.order.len() implies ({
        let x = #[trigger] next.order[i];
        next.is_completed(x.0, x.1) || next.is_shadowed(x.0, x.1)
    }) by {
        let x = next.order[i];
        assert(x.0 != id);
        assert(next.order.contains(x));
        assert(m.order.contains(x));
        let k = choose|k: int| 0 <= k < m.order.len() && m.order[k] == x;
        assert(m.is_completed(m.order[k].0, m.order[k].1) || m.is_shadowed(
            m.order[k].0,
            m.order[k].1,
        ));
    }
}

proof fn lemma_started<F>(m: RegistryModel<F>, id: u64)
    requires
        m.valid(),
        m.active.contains_key(id),
    ensures
        m.started(id).valid(),
{
    let next = m.started(id);
    assert(next.active.dom() =~= m.active.dom());
    assert forall|x: u64| #[trigger] next.active.contains_key(x) implies !next.completed.contains_key(
        x,
    ) && next.active[x].token.number() < next.issued by {
        assert(m.active.contains_key(x));
    }
    assert forall|x: u64| #[trigger]
        next.active.contains_key(x) && next.active[x].previous is Some implies next.order.contains(
        (x, next.active[x].previous->0.token),
    ) && next.active[x].previous->0.token.number() < next.active[x].token.number() by {
        assert(m.active.contains_key(x));
        assert(m.active[x].previous is Some);
    }
    assert forall|i: int| 0 <= i < next.order.len() implies ({
        let x = #[trigger] next.order[i];
        next.is_completed(x.0, x.1) || next.is_shadowed(x.0, x.1)
    }) by {
        let x = m.order[i];
        assert(m.is_completed(x.0, x.1) || m.is_shadowed(x.0, x.1));
    }
}

/// Adding a completion under an idle ID, at the end of the order, keeps a
/// registry consistent.
pub proof fn lemma_appended<F>(m: RegistryModel<F>, id: u64, record: CompletedRecord)
    requires
        m.valid(),
        !m.active.contains_key(id),
        !m.completed.contains_key(id),
        record.token.number() < m.issued,
        forall|i: int| 0 <= i < m.order.len() ==> (#[trigger] m.order[i]).0 != id,
    ensures
        m.appended(id, record).consistent(),
        m.remembered(id, record).valid(),
{
    let next = m.appended(id, record);
    let last = m.order.len() as int;
    assert forall|i: int, j: int|
        0 <= i < next.order.len() && 0 <= j < next.order.len() && i != j implies next.order[i]
        != next.order[j] by {
        if i < last && j < last {
            assert(m.order[i] != m.order[j]);
        } else if i < last {
            assert(m.order[i].0 != id);
        } else {
            assert(m.order[j].0 != id);
        }
    }
    assert forall|x: Marker| m.order.contains(x) implies next.order.contains(x) by {
        let i = choose|i: int| 0 <= i < m.order.len() && m.order[i] == x;
        assert(next.order[i] == x);
    }
    assert(next.order[last] == (id, record.token));
    assert forall|x: u64| #[trigger] next.active.contains_key(x) implies !next.completed.contains_key(
        x,
    ) && next.active[x].token.number() < next.issued by {
        assert(m.active.contains_key(x));
    }
    assert forall|x: u64| #[trigger] next.completed.contains_key(x) implies next.order.contains(
        (x, next.completed[x].token),
    ) && next.completed[x].token.number() < next.issued by {
        if x != id {
            assert(m.completed.contains_key(x));
        }
    }
    assert forall|x: u64| #[trigger]
        next.active.contains_key(x) && next.active[x].previous is Some implies next.order.contains(
        (x, next.active[x].previous->0.token),
    ) && next.active[x].previous->0.token.number() < next.active[x].token.number() by {
        assert(m.active.contains_key(x));
    }
    assert forall|i: int| 0 <= i < next.order.len() implies ({
        let x = #[trigger] next.order[i];
        next.is_completed(x.0, x.1) || next.is_shadowed(x.0, x.1)
    }) by {
        if i < last {
            let x = m.order[i];
            assert(x.0 != id);
            assert(m.is_completed(x.0, x.1) || m.is_shadowed(x.0, x.1));
        }
    }
    lemma_evicted(next);
}

/// Showing a shadowed record again keeps a registry consistent.
pub proof fn lemma_restored<F>(m: RegistryModel<F>, id: u64, record: CompletedRecord)
    requires
        m.valid(),
        m.active.contains_key(id),
        m.active[id].previous == Some(record),
    ensures
        m.unshadowed(id, record).consistent(),
        m.order.contains((id, record.token)),
{
    let next = m.unshadowed(id, record);
    assert(m.order.contains((id, record.token)));
    assert forall|x: u64| #[trigger] next.active.contains_key(x) implies !next.completed.contains_key(
        x,
    ) && next.active[x].token.number() < next.issued by {
        assert(m.active.contains_key(x));
    }
    assert forall|x: u64| #[trigger] next.completed.contains_key(x) implies next.order.contains(
        (x, next.completed[x].token),
    ) && next.completed[x].token.number() < next.issued by {
        if x != id {
            assert(m.completed.contains_key(x));
        }
    }
    assert forall|x: u64| #[trigger]
        next.active.contains_key(x) && next.active[x].previous is Some implies next.order.contains(
        (x, next.active[x].previous->0.token),
    ) && next.active[x].previous->0.token.number() < next.active[x].token.number() by {
        assert(m.active.contains_key(x));
    }
    assert forall|i: int| 0 <= i < next.order.len() implies ({
        let x = #[trigger] next.order[i];
        next.is_completed(x.0, x.1) || next.is_shadowed(x.0, x.1)
    }) by {
        let x = m.order[i];
        assert(m.is_completed(x.0, x.1) || m.is_shadowed(x.0, x.1));
        if x.0 == id {
            assert(!m.completed.contains_key(id));
        }
    }
}

/// A rejected submission leaves a valid registry.
proof fn lemma_rejected<F>(m: RegistryModel<F>, id: u64)
    requires
        m.valid(),
        m.active.contains_key(id),
    ensures
        m.rejected(id).valid(),
{
    match m.active[id].previous {
        Some(record) => {
            lemma_restored(m, id, record);
            lemma_evicted(m.unshadowed(id, record));
        },
        None => {
            lemma_unshadowed(m, id, RegistryModel { active: m.active.remove(id), ..m });
        },
    }
}

proof fn lemma_unremembered<F>(m: RegistryModel<F>, id: u64, token: SubmissionToken)
    requires
        m.valid(),
        m.is_completed(id, token),
    ensures
        m.unremembered(id, token).valid(),
{
    let next = m.unremembered(id, token);
    lemma_without_contents(m.order, (id, token));
    assert(next.completed.dom() =~= m.completed.dom().remove(id));
    assert forall|x: u64| #[trigger] next.active.contains_key(x) implies !next.completed.contains_key(
        x,
    ) && next.active[x].token.number() < next.issued by {
        assert(m.active.contains_key(x));
    }
    assert forall|x: u64| #[trigger] next.completed.contains_key(x) implies next.order.contains(
        (x, next.completed[x].token),
    ) && next.completed[x].token.number() < next.issued by {
        assert(m.completed.contains_key(x));
        assert(m.order.contains((x, m.completed[x].token)));
        assert(next.order.contains((x, m.completed[x].token)));
    }
    assert forall|x: u64| #[trigger]
        next.active.contains_key(x) && next.active[x].previous is Some implies next.order.contains(
        (x, next.active[x].previous->0.token),
    ) && next.active[x].previous->0.token.number() < next.active[x].token.number() by {
        assert(m.active.contains_key(x));
        assert(x != id);
        assert(m.order.contains((x, m.active[x].previous->0.token)));
        assert(next.order.contains((x, m.active[x].previous->0.token)));
    }
    assert forall|i: int| 0 <= i < next.order.len() implies ({
        let x = #[trigger] next.order[i];
        next.is_completed(x.0, x.1) || next.is_shadowed(x.0, x.1)
    }) by {
        let x = next.order[i];
        assert(next.order.contains(x));
        assert(m.order.contains(x));
        let k = choose|k: int| 0 <= k < m.order.len() && m.order[k] == x;
        assert(m.is_completed(m.order[k].0, m.order[k].1) || m.is_shadowed(
            m.order[k].0,
            m.order[k].1,
        ));
        if x.0 == id {
            assert(m.completed.contains_key(id));
            assert(!m.active.contains_key(id));
        }
    }
}

/// Mutable state of the registry.
#[derive(Debug)]
struct Inner<F> {
    suspended: bool,
    active: BTreeMap<u64, ActiveRecord<F>>,
    completed: BTreeMap<u64, CompletedRecord>,
    completed_order: Vec<Marker>,
    history_capacity: usize,
    issued: u64,
}

impl<F> Inner<F> {
    spec fn model(&self) -> RegistryModel<F> {
        RegistryModel {
            suspended: self.suspended,
            active: self.active@,
            completed: self.completed@,
            order: self.completed_order@,
            history_capacity: self.history_capacity,
            issued: self.issued,
        }
    }

    fn new(history_capacity: usize) -> (inner: Self)
        ensures
            inner.model() == RegistryModel::<F>::empty(history_capacity),
            inner.model().valid(),
    {
        let inner = Inner {
            suspended: false,
            active: BTreeMap::new(),
            completed: BTreeMap::new(),
            completed_order: Vec::new(),
            history_capacity,
            issued: 0,
        };
        proof {
            assert(inner.model().active.dom() =~= Set::<u64>::empty());
            assert(inner.model().completed.dom() =~= Set::<u64>::empty());
        }
        inner
    }

    /// Checks that an active ID still denotes this exact submission.
    fn matches_active(&self, id: u64, token: SubmissionToken) -> (matches: bool)
        ensures
            matches == self.model().is_active(id, token),
    {
        match self.active.get(&id) {
            Some(record) => record.token == token,
            None => false,
        }
    }

    /// Removes the order marker owned by one submission.
    fn remove_order_marker(&mut self, id: u64, token: SubmissionToken)
        requires
            old(self).completed_order@.no_duplicates(),
        ensures
            final(self).model() == (RegistryModel {
                order: without(old(self).model().order, (id, token)),
                ..old(self).model()
            }),
    {
        let ghost before = self.completed_order@;
        let ghost kept = self.model();
        let mut i: usize = 0;
        while i < self.completed_order.len()
            invariant
                i <= self.completed_order@.len(),
                self.completed_order@ == before,
                before == old(self).model().order,
                self.model() == old(self).model(),
                before.no_duplicates(),
                forall|k: int| 0 <= k < i ==> before[k] != (id, token),
            decreases self.completed_order@.len() - i,
        {
            let marker = self.completed_order[i];
            if marker.0 == id && marker.1 == token {
                proof {
                    assert(before[i as int] == (id, token));
                    lemma_without_at(before, (id, token), i as int);
                }
                let _removed = self.completed_order.remove(i);
                return;
            }
            i = i + 1;
        }
        proof {
            lemma_without_absent(before, (id, token));
        }
    }

    /// Drops oldest effective records until the configured capacity is met.
    fn evict_to_capacity(&mut self)
        requires
            old(self).model().consistent(),
            old(self).model().active.dom().finite(),
            old(self).model().completed.dom().finite(),
        ensures
            final(self).model() == old(self).model().evicted(),
            final(self).model().valid(),
    {
        let ghost target = self.model().evicted();
        proof {
            lemma_evicted(self.model());
        }
        while self.completed.len() > self.history_capacity && self.completed_order.len() > 0
            invariant
                self.model().consistent(),
                self.model().active.dom().finite(),
                self.model().completed.dom().finite(),
                self.model().evicted() == target,
            decreases self.completed_order@.len(),
        {
            let ghost before = self.model();
            proof {
                lemma_evict_oldest(before);
            }
            let oldest: Marker = self.completed_order.remove(0);
            proof {
                assert(self.completed_order@ =~= before.order.drop_first());
            }
            let held = match self.completed.get(&oldest.0) {
                Some(record) => record.token == oldest.1,
                None => false,
            };
            if held {
                let _removed = self.completed.remove(&oldest.0);
            } else {
                match self.active.remove(&oldest.0) {
                    Some(record) => {
                        let shadows = match record.previous {
                            Some(previous) => previous.token == oldest.1,
                            None => false,
                        };
                        let previous: Option<CompletedRecord> = if shadows {
                            None
                        } else {
                            record.previous
                        };
                        let _replaced = self.active.insert(
                            oldest.0,
                            ActiveRecord {
                                token: record.token,
                                phase: record.phase,
                                cancel: record.cancel,
                                previous,
                            },
                        );
                        proof {
                            if !shadows {
                                assert(self.active@ =~= before.active);
                            } else {
                                assert(self.active@ =~= before.active.insert(
                                    oldest.0,
                                    ActiveRecord { previous: None, ..before.active[oldest.0] },
                                ));
                            }
                        }
                    },
                    None => {
                        proof {
                            assert(self.active@ =~= before.active);
                        }
                    },
                }
            }
            proof {
                assert(self.model() =~= before.evict_oldest());
            }
        }
        proof {
            lemma_evicted(self.model());
        }
    }

    /// Keeps one terminal status, evicting the oldest completion if needed.
    fn remember(&mut self, id: u64, token: SubmissionToken, status: TaskStatus)
        requires
            old(self).model().valid(),
            !old(self).model().active.contains_key(id),
            !old(self).model().completed.contains_key(id),
            token.number() < old(self).model().issued,
            forall|i: int|
                0 <= i < old(self).model().order.len() ==> (
                #[trigger] old(self).model().order[i]).0 != id,
        ensures
            final(self).model() == old(self).model().remembered(
                id,
                CompletedRecord { token, status },
            ),
            final(self).model().valid(),
    {
        proof {
            lemma_appended(self.model(), id, CompletedRecord { token, status });
        }
        if self.history_capacity == 0 {
            return;
        }
        let ghost before = self.model();
        let _previous = self.completed.insert(id, CompletedRecord { token, status });
        self.completed_order.push((id, token));
        proof {
            assert(self.model() =~= before.appended(id, CompletedRecord { token, status }));
        }
        self.evict_to_capacity();
    }

    fn reserve(&mut self, id: u64, cancel: F) -> (result: Result<
        SubmissionToken,
        TaskExecutionServiceError,
    >)
        requires
            old(self).model().valid(),
            old(self).model().reserve_error(id) is None ==> old(self).issued < u64::MAX,
        ensures
            final(self).model().valid(),
            reserve_post(old(self).model(), final(self).model(), id, cancel, result),
    {
        if self.suspended {
            return Err(TaskExecutionServiceError::Suspended);
        }
        if self.active.contains_key(&id) {
            return Err(TaskExecutionServiceError::DuplicateTask(id));
        }
        let ghost before = self.model();
        let token = SubmissionToken { number: self.issued };
        proof {
            lemma_reserved(before, id, token, cancel);
        }
        let previous = self.completed.remove(&id);
        self.issued = self.issued + 1;
        let _replaced = self.active.insert(
            id,
            ActiveRecord { token, phase: ActivePhase::Submitting, cancel, previous },
        );
        proof {
            assert(self.completed@ =~= before.completed.remove(id));
            assert(self.model() =~= before.reserved(id, token, cancel));
        }
        Ok(token)
    }

    fn accept(&mut self, id: u64, token: SubmissionToken) -> (accepted: bool)
        requires
            old(self).model().valid(),
        ensures
            final(self).model().valid(),
            accepted == old(self).model().can_accept(id, token),
            final(self).model() == if accepted {
                old(self).model().accepted(id)
            } else {
                old(self).model()
            },
    {
        let ghost before = self.model();
        let current = match self.active.get(&id) {
            Some(record) => record.token == token && record.phase == ActivePhase::Submitting,
            None => false,
        };
        if !current {
            return false;
        }
        proof {
            lemma_unshadowed(before, id, before.accepted(id));
        }
        match self.active.remove(&id) {
            Some(record) => {
                let _replaced = self.active.insert(
                    id,
                    ActiveRecord {
                        token: record.token,
                        phase: ActivePhase::Submitted,
                        cancel: record.cancel,
                        previous: None,
                    },
                );
                proof {
                    assert(self.active@ =~= before.accepted(id).active);
                }
                match record.previous {
                    Some(previous) => {
                        self.remove_order_marker(id, previous.token);
                    },
                    None => {},
                }
                proof {
                    assert(self.model() =~= before.accepted(id));
                }
            },
            None => {
                proof {
                    assert(false);
                }
            },
        }
        true
    }

    fn start(&mut self, id: u64, token: SubmissionToken) -> (started: bool)
        requires
            old(self).model().valid(),
        ensures
            final(self).model().valid(),
            started == old(self).model().can_start(id, token),
            final(self).model() == if started {
                old(self).model().started(id)
            } else {
                old(self).model()
            },
    {
        let ghost before = self.model();
        let current = match self.active.get(&id) {
            Some(record) => record.token == token && record.phase == ActivePhase::Submitted,
            None => false,
        };
        if !current {
            return false;
        }
        proof {
            lemma_started(before, id);
        }
        match self.active.remove(&id) {
            Some(record) => {
                let _replaced = self.active.insert(
                    id,
                    ActiveRecord {
                        token: record.token,
                        phase: ActivePhase::Running,
                        cancel: record.cancel,
                        previous: record.previous,
                    },
                );
                proof {
                    assert(self.active@ =~= before.started(id).active);
                    assert(self.model() =~= before.started(id));
                }
            },
            None => {
                proof {
                    assert(false);
                }
            },
        }
        true
    }

    fn finish(&mut self, id: u64, token: SubmissionToken, status: TaskStatus) -> (finished: bool)
        requires
            old(self).model().valid(),
        ensures
            final(self).model().valid(),
            finished == old(self).model().is_active(id, token),
            final(self).model() == if finished {
                old(self).model().finished(id, token, status)
            } else {
                old(self).model()
            },
    {
        let ghost before = self.model();
        if !self.matches_active(id, token) {
            return false;
        }
        proof {
            lemma_unshadowed(before, id, before.ended(id));
            assert(!before.completed.contains_key(id));
        }
        match self.active.remove(&id) {
            Some(record) => {
                match record.previous {
                    Some(previous) => {
                        self.remove_order_marker(id, previous.token);
                    },
                    None => {},
                }
                proof {
                    assert(self.model() =~= before.ended(id));
                }
                self.remember(id, token, status);
            },
            None => {
                proof {
                    assert(false);
                }
            },
        }
        true
    }

    fn discard(&mut self, id: u64, token: SubmissionToken) -> (discarded: bool)
        requires
            old(self).model().valid(),
        ensures
            final(self).model().valid(),
            discarded == (old(self).model().is_active(id, token) || old(self).model().is_completed(
                id,
                token,
            )),
            final(self).model() == old(self).model().discarded(id, token),
    {
        let ghost before = self.model();
        if self.matches_active(id, token) {
            proof {
                lemma_rejected(before, id);
            }
            match self.active.remove(&id) {
                Some(record) => {
                    match record.previous {
                        Some(previous) => {
                            let _replaced = self.completed.insert(id, previous);
                            proof {
                                lemma_restored(before, id, previous);
                                assert(self.model() =~= before.unshadowed(id, previous));
                            }
                            self.evict_to_capacity();
                        },
                        None => {},
                    }
                },
                None => {
                    proof {
                        assert(false);
                    }
                },
            }
            return true;
        }
        let held = match self.completed.get(&id) {
            Some(record) => record.token == token,
            None => false,
        };
        if held {
            proof {
                lemma_unremembered(before, id, token);
            }
            let _removed = self.completed.remove(&id);
            self.remove_order_marker(id, token);
            return true;
        }
        false
    }
}

/// What reserving an ID does and returns.
pub open spec fn reserve_post<F>(
    before: RegistryModel<F>,
    after: RegistryModel<F>,
    id: u64,
    cancel: F,
    result: Result<SubmissionToken, TaskExecutionServiceError>,
) -> bool {
    match result {
        Ok(token) => {
            &&& before.reserve_error(id) is None
            &&& token.number() == before.issued
            &&& after == before.reserved(id, token, cancel)
        },
        Err(error) => before.reserve_error(id) == Some(error@) && after == before,
    }
}

/// Registry state shared by a service and accepted pool jobs. `F` is the
/// cancellation endpoint of an unstarted task.
#[derive(Debug)]
pub struct TaskExecutionServiceState<F> {
    inner: Inner<F>,
}

impl<F> View for TaskExecutionServiceState<F> {
    type V = RegistryModel<F>;

    closed spec fn view(&self) -> RegistryModel<F> {
        self.inner.model()
    }
}

impl<F> TaskExecutionServiceState<F> {
    #[verifier::type_invariant]
    closed spec fn well_formed(self) -> bool {
        self.inner.model().valid()
    }

    /// Creates an empty registry with the specified terminal history limit.
    pub fn new(history_capacity: usize) -> (state: Self)
        ensures
            state@ == RegistryModel::<F>::empty(history_capacity),
            state@.valid(),
    {
        TaskExecutionServiceState { inner: Inner::new(history_capacity) }
    }

    /// Returns how many tokens were issued.
    pub fn issued(&self) -> (issued: u64)
        ensures
            issued == self@.issued,
    {
        self.inner.issued
    }

    /// Reserves an ID before asking the pool to accept the task.
    pub fn reserve(&mut self, task_id: u64, cancel: F) -> (result: Result<
        SubmissionToken,
        TaskExecutionServiceError,
    >)
        requires
            old(self)@.reserve_error(task_id) is None ==> old(self)@.issued < u64::MAX,
        ensures
            old(self)@.valid(),
            final(self)@.valid(),
            reserve_post(old(self)@, final(self)@, task_id, cancel, result),
    {
        proof {
            use_type_invariant(&*self);
        }
        let mut inner = Inner::new(0);
        std::mem::swap(&mut inner, &mut self.inner);
        let result = inner.reserve(task_id, cancel);
        std::mem::swap(&mut inner, &mut self.inner);
        result
    }

    /// Publishes pool acceptance for the matching reservation.
    pub fn accept(&mut self, task_id: u64, token: &SubmissionToken) -> (accepted: bool)
        ensures
            old(self)@.valid(),
            final(self)@.valid(),
            accepted == old(self)@.can_accept(task_id, *token),
            final(self)@ == if accepted {
                old(self)@.accepted(task_id)
            } else {
                old(self)@
            },
    {
        proof {
            use_type_invariant(&*self);
        }
        let mut inner = Inner::new(0);
        std::mem::swap(&mut inner, &mut self.inner);
        let accepted = inner.accept(task_id, *token);
        std::mem::swap(&mut inner, &mut self.inner);
        accepted
    }

    /// Marks the matching accepted task as running.
    pub fn start(&mut self, task_id: u64, token: &SubmissionToken) -> (started: bool)
        ensures
            old(self)@.valid(),
            final(self)@.valid(),
            started == old(self)@.can_start(task_id, *token),
            final(self)@ == if started {
                old(self)@.started(task_id)
            } else {
                old(self)@
            },
    {
        proof {
            use_type_invariant(&*self);
        }
        let mut inner = Inner::new(0);
        std::mem::swap(&mut inner, &mut self.inner);
        let started = inner.start(task_id, *token);
        std::mem::swap(&mut inner, &mut self.inner);
        started
    }

    /// Finishes a matching active task and retains only its bounded status.
    ///
    /// Returns `false` for a stale token or an already finished task. The
    /// caller must have won the underlying task slot before reporting a result.
    pub fn finish(&mut self, task_id: u64, token: &SubmissionToken, status: TaskStatus) -> (
    finished: bool)
        requires
            !status.active(),
        ensures
            old(self)@.valid(),
            final(self)@.valid(),
            finished == old(self)@.is_active(task_id, *token),
            final(self)@ == if finished {
                old(self)@.finished(task_id, *token, status)
            } else {
                old(self)@
            },
    {
        proof {
            use_type_invariant(&*self);
        }
        let mut inner = Inner::new(0);
        std::mem::swap(&mut inner, &mut self.inner);
        let finished = inner.finish(task_id, *token, status);
        std::mem::swap(&mut inner, &mut self.inner);
        finished
    }

    /// Removes only the matching submission after pool rejection.
    ///
    /// A rare rejection after the accept callback may find this submission in
    /// the completed history. It is removed there as well, without touching a
    /// newer submission of the same business ID.
    pub fn discard(&mut self, task_id: u64, token: &SubmissionToken) -> (discarded: bool)
        ensures
            old(self)@.valid(),
            final(self)@.valid(),
            discarded == (old(self)@.is_active(task_id, *token) || old(self)@.is_completed(
                task_id,
                *token,
            )),
            final(self)@ == old(self)@.discarded(task_id, *token),
    {
        proof {
            use_type_invariant(&*self);
        }
        let mut inner = Inner::new(0);
        std::mem::swap(&mut inner, &mut self.inner);
        let discarded = inner.discard(task_id, *token);
        std::mem::swap(&mut inner, &mut self.inner);
        discarded
    }

    /// Returns the token and the cancellation endpoint of an accepted, unstarted
    /// task.
    pub fn cancel_candidate(&self, task_id: u64) -> (candidate: Option<(SubmissionToken, &F)>)
        ensures
            match candidate {
                Some((token, cancel)) => {
                    &&& self@.can_start(task_id, token)
                    &&& *cancel == self@.active[task_id].cancel
                },
                None => !self@.active.contains_key(task_id) || self@.active[task_id].phase
                    != ActivePhase::Submitted,
            },
    {
        match self.inner.active.get(&task_id) {
            Some(record) => if record.phase == ActivePhase::Submitted {
                Some((record.token, &record.cancel))
            } else {
                None
            },
            None => None,
        }
    }

    /// Returns the visible status of the latest retained submission.
    ///
    /// Unaccepted reservations and evicted terminal records return `None`.
    pub fn status(&self, task_id: u64) -> (status: Option<TaskStatus>)
        ensures
            status == self@.status(task_id),
    {
        match self.inner.active.get(&task_id) {
            Some(record) => {
                return match record.phase {
                    ActivePhase::Submitting => None,
                    ActivePhase::Submitted => Some(TaskStatus::Submitted),
                    ActivePhase::Running => Some(TaskStatus::Running),
                };
            },
            None => {},
        }
        match self.inner.completed.get(&task_id) {
            Some(record) => Some(record.status),
            None => None,
        }
    }

    /// Computes counts for visible active and retained terminal records.
    pub fn stats(&self) -> (stats: TaskExecutionStats)
        requires
            self@.active.len() + self@.completed.len() < usize::MAX,
        ensures
            stats.adds_up(),
            forall|status: TaskStatus| #[trigger] stats.count(status) == self@.count(status),
    {
        let active = keys_of(&self.inner.active);
        let completed = keys_of(&self.inner.completed);
        let ghost m = self@;
        proof {
            use_type_invariant(self);
            lemma_keys_len(active@, m.active);
            lemma_keys_len(completed@, m.completed);
        }
        let mut stats = TaskExecutionStats::default();
        let mut i: usize = 0;
        while i < active.len()
            invariant
                i <= active@.len(),
                m == self@,
                lists_keys(active@, m.active),
                active@.len() == m.active.len(),
                m.active.len() + m.completed.len() < usize::MAX,
                stats.adds_up(),
                stats.total <= i,
                forall|s: TaskStatus| #[trigger]
                    stats.count(s) == listed_total(
                        m.active,
                        active@.take(i as int),
                        active_weight::<F>(s),
                    ),
            decreases active@.len() - i,
        {
            proof {
                assert(active@.contains(active@[i as int]));
                assert(m.active.contains_key(active@[i as int]));
                assert forall|s: TaskStatus|
                    listed_total(m.active, active@.take(i + 1), active_weight::<F>(s))
                        == #[trigger] listed_total(
                        m.active,
                        active@.take(i as int),
                        active_weight::<F>(s),
                    ) + active_weight::<F>(s)(m.active[active@[i as int]]) by {
                    lemma_listed_step(m.active, active@, i as int, active_weight::<F>(s));
                }
            }
            let ghost before = stats;
            match self.inner.active.get(&active[i]) {
                Some(record) => match record.phase {
                    ActivePhase::Submitting => {},
                    ActivePhase::Submitted => {
                        stats.add_status(TaskStatus::Submitted);
                    },
                    ActivePhase::Running => {
                        stats.add_status(TaskStatus::Running);
                    },
                },
                None => {
                    proof {
                        assert(false);
                    }
                },
            }
            proof {
                assert forall|s: TaskStatus| #[trigger] stats.count(s) == listed_total(
                    m.active,
                    active@.take(i + 1),
                    active_weight::<F>(s),
                ) by {
                    assert(before.count(s) == listed_total(
                        m.active,
                        active@.take(i as int),
                        active_weight::<F>(s),
                    ));
                }
            }
            i = i + 1;
        }
        let ghost visible = stats;
        proof {
            assert(active@.take(i as int) =~= active@);
            assert forall|s: TaskStatus| #[trigger] visible.count(s) == total(
                m.active,
                active_weight::<F>(s),
            ) by {
                lemma_total_listed(m.active, active@, active_weight::<F>(s));
            }
            assert(completed@.take(0) =~= Seq::<u64>::empty());
        }
        let mut j: usize = 0;
        while j < completed.len()
            invariant
                j <= completed@.len(),
                m == self@,
                lists_keys(completed@, m.completed),
                completed@.len() == m.completed.len(),
                m.active.len() + m.completed.len() < usize::MAX,
                stats.adds_up(),
                visible.total <= m.active.len(),
                stats.total <= visible.total + j,
                forall|s: TaskStatus| #[trigger]
                    stats.count(s) == visible.count(s) + listed_total(
                        m.completed,
                        completed@.take(j as int),
                        completed_weight(s),
                    ),
            decreases completed@.len() - j,
        {
            proof {
                assert(completed@.contains(completed@[j as int]));
                assert(m.completed.contains_key(completed@[j as int]));
                assert forall|s: TaskStatus|
                    listed_total(m.completed, completed@.take(j + 1), completed_weight(s))
                        == #[trigger] listed_total(
                        m.completed,
                        completed@.take(j as int),
                        completed_weight(s),
                    ) + completed_weight(s)(m.completed[completed@[j as int]]) by {
                    lemma_listed_step(m.completed, completed@, j as int, completed_weight(s));
                }
            }
            let ghost before = stats;
            match self.inner.completed.get(&completed[j]) {
                Some(record) => {
                    stats.add_status(record.status);
                },
                None => {
                    proof {
                        assert(false);
                    }
                },
            }
            proof {
                assert forall|s: TaskStatus| #[trigger] stats.count(s) == visible.count(s)
                    + listed_total(m.completed, completed@.take(j + 1), completed_weight(s)) by {
                    assert(before.count(s) == visible.count(s) + listed_total(
                        m.completed,
                        completed@.take(j as int),
                        completed_weight(s),
                    ));
                }
            }
            j = j + 1;
        }
        proof {
            assert(completed@.take(j as int) =~= completed@);
            assert forall|s: TaskStatus| #[trigger] stats.count(s) == m.count(s) by {
                lemma_total_listed(m.completed, completed@, completed_weight(s));
                assert(visible.count(s) == total(m.active, active_weight::<F>(s)));
            }
        }
        stats
    }

    /// Enables or disables admission of new reservations.
    pub fn set_suspended(&mut self, suspended: bool)
        ensures
            final(self)@ == (RegistryModel { suspended, ..old(self)@ }),
    {
        proof {
            use_type_invariant(&*self);
        }
        let mut inner = Inner::new(0);
        std::mem::swap(&mut inner, &mut self.inner);
        inner.suspended = suspended;
        std::mem::swap(&mut inner, &mut self.inner);
    }

    /// Returns whether admission is suspended.
    pub fn is_suspended(&self) -> (suspended: bool)
        ensures
            suspended == self@.suspended,
    {
        self.inner.suspended
    }

    /// Lists the submissions that are active now.
    pub fn in_flight(&self) -> (submissions: Vec<Marker>)
        ensures
            forall|m: Marker| #[trigger]
                submissions@.contains(m) <==> self@.is_active(m.0, m.1),
    {
        let keys = keys_of(&self.inner.active);
        let mut submissions: Vec<Marker> = Vec::new();
        let mut i: usize = 0;
        while i < keys.len()
            invariant
                i <= keys@.len(),
                lists_keys(keys@, self@.active),
                submissions@.len() == i,
                forall|k: int|
                    0 <= k < i ==> (#[trigger] submissions@[k]) == (
                        keys@[k],
                        self@.active[keys@[k]].token,
                    ),
            decreases keys@.len() - i,
        {
            proof {
                assert(keys@.contains(keys@[i as int]));
            }
            match self.inner.active.get(&keys[i]) {
                Some(record) => {
                    submissions.push((keys[i], record.token));
                },
                None => {
                    proof {
                        assert(false);
                    }
                },
            }
            i = i + 1;
        }
        proof {
            assert forall|m: Marker| #[trigger]
                submissions@.contains(m) <==> self@.is_active(m.0, m.1) by {
                if submissions@.contains(m) {
                    let k = choose|k: int| 0 <= k < submissions@.len() && submissions@[k] == m;
                    assert(submissions@[k] == (keys@[k], self@.active[keys@[k]].token));
                    assert(keys@.contains(keys@[k]));
                }
                if self@.is_active(m.0, m.1) {
                    assert(keys@.contains(m.0));
                    let k = choose|k: int| 0 <= k < keys@.len() && keys@[k] == m.0;
                    assert(submissions@[k] == m);
                }
            }
        }
        submissions
    }

    /// Returns whether any of these submissions is still active.
    pub fn any_active(&self, submissions: &Vec<Marker>) -> (any: bool)
        ensures
            any == exists|i: int|
                0 <= i < submissions@.len() && self@.is_active(
                    (#[trigger] submissions@[i]).0,
                    submissions@[i].1,
                ),
    {
        let mut i: usize = 0;
        while i < submissions.len()
            invariant
                i <= submissions@.len(),
                forall|k: int|
                    0 <= k < i ==> !self@.is_active(
                        (#[trigger] submissions@[k]).0,
                        submissions@[k].1,
                    ),
            decreases submissions@.len() - i,
        {
            let marker = submissions[i];
            if self.inner.matches_active(marker.0, marker.1) {
                proof {
                    assert(self@.is_active(submissions@[i as int].0, submissions@[i as int].1));
                }
                return true;
            }
            i = i + 1;
        }
        false
    }

    /// Returns whether no reservation or accepted task remains active.
    pub fn is_idle(&self) -> (idle: bool)
        ensures
            idle == (self@.active.len() == 0),
    {
        self.inner.active.len() == 0
    }

    /// Returns the number of active submissions.
    pub fn active_len(&self) -> (len: usize)
        ensures
            len == self@.active.len(),
    {
        self.inner.active.len()
    }

    /// Returns the number of retained terminal records.
    pub fn completed_len(&self) -> (len: usize)
        ensures
            len == self@.completed.len(),
    {
        self.inner.completed.len()
    }

    /// Lists the IDs of the completion order, the oldest first.
    pub fn completed_order(&self) -> (ids: Vec<u64>)
        ensures
            ids@ == self@.order.map_values(|m: Marker| m.0),
    {
        let mut ids: Vec<u64> = Vec::new();
        let mut i: usize = 0;
        while i < self.inner.completed_order.len()
            invariant
                i <= self.inner.completed_order@.len(),
                ids@.len() == i,
                forall|k: int| 0 <= k < i ==> ids@[k] == self@.order[k].0,
            decreases self.inner.completed_order@.len() - i,
        {
            ids.push(self.inner.completed_order[i].0);
            i = i + 1;
        }
        proof {
            assert(ids@ =~= self@.order.map_values(|m: Marker| m.0));
        }
        ids
    }
}

proof fn lemma_keys_len<V>(keys: Seq<u64>, map: Map<u64, V>)
    requires
        lists_keys(keys, map),
    ensures
        keys.len() == map.len(),
{
    keys.unique_seq_to_set();
    assert(keys.to_set() =~= map.dom()) by {
        assert forall|k: u64| keys.to_set().contains(k) <==> map.dom().contains(k) by {
            assert(map.contains_key(k) <==> keys.contains(k));
        }
    }
}

/// A stale token changes nothing: acceptance, start, completion and rejection of
/// a submission leave a newer submission of the same ID alone.
pub proof fn law_stale_tokens_change_nothing<F>(
    m: RegistryModel<F>,
    id: u64,
    stale: SubmissionToken,
)
    requires
        m.valid(),
        m.active.contains_key(id),
        m.active[id].token != stale,
    ensures
        !m.can_accept(id, stale),
        !m.can_start(id, stale),
        !m.is_active(id, stale),
        m.discarded(id, stale) == m,
{
    assert(!m.completed.contains_key(id));
}

/// A rejected reservation leaves the history as it was.
pub proof fn law_rejection_restores_the_history<F>(
    m: RegistryModel<F>,
    id: u64,
    token: SubmissionToken,
    cancel: F,
)
    requires
        m.valid(),
        m.reserve_error(id) is None,
        token.number() == m.issued,
        m.issued < u64::MAX,
    ensures
        m.reserved(id, token, cancel).discarded(id, token) == (RegistryModel {
            issued: (m.issued + 1) as u64,
            ..m
        }),
{
    let held = m.reserved(id, token, cancel);
    lemma_reserved(m, id, token, cancel);
    assert(held.active.remove(id) =~= m.active);
    if m.completed.contains_key(id) {
        assert(m.order.contains((id, m.completed[id].token)));
        assert(held.completed.insert(id, m.completed[id]) =~= m.completed);
    } else {
        assert(held.completed =~= m.completed);
    }
}

/// A reservation is hidden: its ID shows no status until it is accepted.
pub proof fn law_reservations_are_hidden<F>(
    m: RegistryModel<F>,
    id: u64,
    token: SubmissionToken,
    cancel: F,
)
    requires
        m.reserve_error(id) is None,
    ensures
        m.reserved(id, token, cancel).status(id) is None,
        m.reserved(id, token, cancel).accepted(id).status(id) == Some(TaskStatus::Submitted),
        m.reserved(id, token, cancel).accepted(id).started(id).status(id) == Some(
            TaskStatus::Running,
        ),
{
}

/// A finished task shows its status, unless no history is kept at all.
pub proof fn law_finished_tasks_show_their_status<F>(
    m: RegistryModel<F>,
    id: u64,
    token: SubmissionToken,
    status: TaskStatus,
)
    requires
        m.valid(),
        m.is_active(id, token),
    ensures
        m.finished(id, token, status).valid(),
        m.history_capacity == 0 ==> m.finished(id, token, status).status(id) is None,
        m.history_capacity > 0 ==> m.finished(id, token, status).status(id) == Some(status),
{
    let ended = m.ended(id);
    let record = CompletedRecord { token, status };
    lemma_unshadowed(m, id, ended);
    assert(m.active.contains_key(id));
    assert(!m.completed.contains_key(id));
    lemma_appended(ended, id, record);
    if m.history_capacity > 0 {
        lemma_newest_survives(ended.appended(id, record), id, record);
    }
}

/// Eviction keeps the newest completion as long as any is kept.
pub proof fn lemma_newest_survives<F>(m: RegistryModel<F>, id: u64, record: CompletedRecord)
    requires
        m.consistent(),
        m.active.dom().finite(),
        m.completed.dom().finite(),
        m.history_capacity > 0,
        m.completed.contains_key(id),
        m.completed[id] == record,
        m.order.len() > 0,
        m.order.last() == (id, record.token),
    ensures
        m.evicted().completed.contains_key(id),
        m.evicted().completed[id] == record,
        !m.evicted().active.contains_key(id),
    decreases m.order.len(),
{
    assert(!m.active.contains_key(id)) by {
        if m.active.contains_key(id) {
            assert(!m.completed.contains_key(id));
        }
    }
    if m.completed.len() > m.history_capacity {
        let next = m.evict_oldest();
        lemma_evict_oldest(m);
        if m.order.len() == 1 {
            assert forall|x: u64| m.completed.contains_key(x) implies x == id by {
                assert(m.order.contains((x, m.completed[x].token)));
            }
            assert(m.completed.dom() =~= Set::<u64>::empty().insert(id));
        } else {
            assert(m.order[0] != m.order[m.order.len() - 1]);
            assert(next.order.last() == m.order.last());
            if m.order[0].0 == id {
                assert(m.is_completed(m.order[0].0, m.order[0].1) || m.is_shadowed(
                    m.order[0].0,
                    m.order[0].1,
                ));
            }
            lemma_newest_survives(next, id, record);
        }
    }
}

/// With nothing in flight, the completion order names every retained record
/// exactly once: no stale entry stays behind.
pub proof fn law_idle_registry_has_no_stale_entries<F>(m: RegistryModel<F>)
    requires
        m.valid(),
        m.active.len() == 0,
    ensures
        m.order.len() == m.completed.len(),
        m.order.len() <= m.history_capacity,
{
    assert(m.active.dom() =~= Set::<u64>::empty());
    let ids = m.order.map_values(|x: Marker| x.0);
    assert forall|i: int| 0 <= i < m.order.len() implies m.is_completed(
        (#[trigger] m.order[i]).0,
        m.order[i].1,
    ) by {
        assert(m.is_completed(m.order[i].0, m.order[i].1) || m.is_shadowed(
            m.order[i].0,
            m.order[i].1,
        ));
    }
    assert(ids.no_duplicates()) by {
        assert forall|i: int, j: int|
            0 <= i < ids.len() && 0 <= j < ids.len() && i != j implies ids[i] != ids[j] by {
            assert(m.order[i] != m.order[j]);
            assert(m.is_completed(m.order[i].0, m.order[i].1));
            assert(m.is_completed(m.order[j].0, m.order[j].1));
        }
    }
    assert(ids.to_set() =~= m.completed.dom()) by {
        assert forall|k: u64| ids.to_set().contains(k) <==> m.completed.dom().contains(k) by {
            if ids.contains(k) {
                let i = choose|i: int| 0 <= i < ids.len() && ids[i] == k;
                assert(m.is_completed(m.order[i].0, m.order[i].1));
            }
            if m.completed.contains_key(k) {
                assert(m.order.contains((k, m.completed[k].token)));
                let i = choose|i: int|
                    0 <= i < m.order.len() && m.order[i] == (k, m.completed[k].token);
                assert(ids[i] == k);
            }
        }
    }
    ids.unique_seq_to_set();
}

} // verus!
