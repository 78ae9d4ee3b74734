//! Bounds on submissions that are being accepted.

use vstd::prelude::*;

use super::error::ServiceErrorModel;
use super::error::TaskServiceError;

verus! {

/// Why a submission does not fit the budget.
#[derive(Debug, Clone, Copy, PartialEq, Eq, Structural)]
pub enum AdmissionBudgetError {
    /// The payload exceeds what is left of the byte budget.
    PayloadBytesExceeded {
        /// Payload bytes of the submission.
        requested: usize,
        /// Payload bytes that were left.
        available: usize,
    },
    /// Every submission slot is taken.
    SubmissionLimitExceeded {
        /// Number of submission slots.
        limit: usize,
    },
}

impl AdmissionBudgetError {
    /// The service error that reports this refusal.
    pub open spec fn reported(self) -> ServiceErrorModel {
        match self {
            AdmissionBudgetError::PayloadBytesExceeded { requested, available } => {
                ServiceErrorModel::PayloadBudgetExceeded {
                    requested_bytes: requested,
                    available_bytes: available,
                }
            },
            AdmissionBudgetError::SubmissionLimitExceeded { limit } => {
                ServiceErrorModel::SubmissionLimitExceeded { limit }
            },
        }
    }

    /// Converts the refusal into a service error.
    pub fn into_service_error(self) -> (error: TaskServiceError)
        ensures
            error@ == self.reported(),
    {
        match self {
            AdmissionBudgetError::PayloadBytesExceeded { requested, available } => {
                TaskServiceError::PayloadBudgetExceeded {
                    requested_bytes: requested,
                    available_bytes: available,
                }
            },
            AdmissionBudgetError::SubmissionLimitExceeded { limit } => {
                TaskServiceError::SubmissionLimitExceeded { limit }
            },
        }
    }
}

/// Bounds the request payload and count held by detached admission workers.
#[derive(Debug)]
pub struct AdmissionBudget {
    max_payload_bytes: usize,
    max_submissions: usize,
    submissions: usize,
    payload_bytes: usize,
}

/// Content of an [`AdmissionBudget`].
#[verifier::ext_equal]
pub struct BudgetModel {
    pub max_payload_bytes: usize,
    pub max_submissions: usize,
    pub submissions: usize,
    pub payload_bytes: usize,
}

impl View for AdmissionBudget {
    type V = BudgetModel;

    closed spec fn view(&self) -> BudgetModel {
        BudgetModel {
            max_payload_bytes: self.max_payload_bytes,
            max_submissions: self.max_submissions,
            submissions: self.submissions,
            payload_bytes: self.payload_bytes,
        }
    }
}

impl BudgetModel {
    /// Whether neither limit is exceeded.
    pub open spec fn valid(self) -> bool {
        self.submissions <= self.max_submissions && self.payload_bytes <= self.max_payload_bytes
    }

    /// Why a payload does not fit, if it does not.
    pub open spec fn reserve_error(self, payload_bytes: usize) -> Option<AdmissionBudgetError> {
        if self.submissions >= self.max_submissions {
            Some(AdmissionBudgetError::SubmissionLimitExceeded { limit: self.max_submissions })
        } else if self.payload_bytes + payload_bytes > self.max_payload_bytes {
            Some(
                AdmissionBudgetError::PayloadBytesExceeded {
                    requested: payload_bytes,
                    available: (self.max_payload_bytes - self.payload_bytes) as usize,
                },
            )
        } else {
            None
        }
    }

    /// The budget with one more submission.
    pub open spec fn reserved(self, payload_bytes: usize) -> BudgetModel {
        BudgetModel {
            submissions: (self.submissions + 1) as usize,
            payload_bytes: (self.payload_bytes + payload_bytes) as usize,
            ..self
        }
    }

    /// The budget with one submission fewer.
    pub open spec fn released(self, payload_bytes: usize) -> BudgetModel {
        BudgetModel {
            submissions: (self.submissions - 1) as usize,
            payload_bytes: (self.payload_bytes - payload_bytes) as usize,
            ..self
        }
    }

    /// Whether a submission of this size is held.
    pub open spec fn can_release(self, payload_bytes: usize) -> bool {
        self.submissions > 0 && self.payload_bytes >= payload_bytes
    }
}

/// One payload and submission reservation.
#[derive(Debug)]
pub struct AdmissionReservation {
    payload_bytes: usize,
}

impl AdmissionReservation {
    /// Payload bytes reserved.
    pub closed spec fn bytes(&self) -> usize {
        self.payload_bytes
    }
}

impl AdmissionBudget {
    #[verifier::type_invariant]
    closed spec fn bounded(self) -> bool {
        self.submissions <= self.max_submissions && self.payload_bytes <= self.max_payload_bytes
    }

    /// Creates an empty in-flight budget with fixed payload and worker limits.
    pub fn new(max_payload_bytes: usize, max_submissions: usize) -> (budget: Self)
        ensures
            budget@ == (BudgetModel {
                max_payload_bytes,
                max_submissions,
                submissions: 0,
                payload_bytes: 0,
            }),
            budget@.valid(),
    {
        AdmissionBudget { max_payload_bytes, max_submissions, submissions: 0, payload_bytes: 0 }
    }

    /// Reserves one worker and its payload size without waiting for capacity.
    pub fn try_reserve(&mut self, payload_bytes: usize) -> (result: Result<
        AdmissionReservation,
        AdmissionBudgetError,
    >)
        ensures
            old(self)@.valid(),
            final(self)@.valid(),
            match result {
                Ok(reservation) => {
                    &&& old(self)@.reserve_error(payload_bytes) is None
                    &&& reservation.bytes() == payload_bytes
                    &&& final(self)@ == old(self)@.reserved(payload_bytes)
                },
                Err(error) => {
                    &&& old(self)@.reserve_error(payload_bytes) == Some(error)
                    &&& final(self)@ == old(self)@
                },
            },
    {
        proof {
            use_type_invariant(&*self);
        }
        if self.submissions >= self.max_submissions {
            return Err(
                AdmissionBudgetError::SubmissionLimitExceeded { limit: self.max_submissions },
            );
        }
        if payload_bytes > self.max_payload_bytes - self.payload_bytes {
            return Err(
                AdmissionBudgetError::PayloadBytesExceeded {
                    requested: payload_bytes,
                    available: self.max_payload_bytes - self.payload_bytes,
                },
            );
        }
        self.submissions = self.submissions + 1;
        self.payload_bytes = self.payload_bytes + payload_bytes;
        Ok(AdmissionReservation { payload_bytes })
    }

    /// Returns whether a reservation of this size is held.
    pub fn holds(&self, reservation: &AdmissionReservation) -> (held: bool)
        ensures
            held == self@.can_release(reservation.bytes()),
    {
        self.submissions > 0 && self.payload_bytes >= reservation.payload_bytes
    }

    /// Gives a reservation of this budget back.
    pub fn release(&mut self, reservation: AdmissionReservation)
        requires
            old(self)@.can_release(reservation.bytes()),
        ensures
            final(self)@.valid(),
            final(self)@ == old(self)@.released(reservation.bytes()),
    {
        proof {
            use_type_invariant(&*self);
        }
        self.submissions = self.submissions - 1;
        self.payload_bytes = self.payload_bytes - reservation.payload_bytes;
    }
}

/// Giving a reservation back restores the budget, and it can always be given
/// back after it was made.
pub proof fn law_releasing_undoes_reserving(budget: BudgetModel, payload_bytes: usize)
    requires
        budget.valid(),
        budget.reserve_error(payload_bytes) is None,
    ensures
        budget.reserved(payload_bytes).valid(),
        budget.reserved(payload_bytes).can_release(payload_bytes),
        budget.reserved(payload_bytes).released(payload_bytes) == budget,
{
}

} // verus!
