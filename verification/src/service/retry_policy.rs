//! Delays between retryable attempts.

use vstd::arithmetic::power2::lemma_pow2_pos;
use vstd::arithmetic::power2::lemma_pow2_unfold;
use vstd::arithmetic::power2::pow2;
use vstd::prelude::*;

verus! {

/// Longest delay in nanoseconds: the largest 64-bit number of seconds and the
/// largest fraction of a second.
pub const MAX_DELAY_NANOS: u128 = 18_446_744_073_709_551_615_999_999_999;

/// A span of time with nanosecond precision.
#[derive(Debug, Clone, Copy, PartialEq, Eq, Structural)]
pub struct Delay {
    nanos: u128,
}

impl Delay {
    /// Length in nanoseconds.
    pub closed spec fn nanos(&self) -> nat {
        self.nanos as nat
    }

    #[verifier::type_invariant]
    closed spec fn bounded(self) -> bool {
        self.nanos <= MAX_DELAY_NANOS
    }

    /// Creates a delay of whole seconds and a fraction below one second.
    pub fn new(seconds: u64, subsec_nanos: u32) -> (delay: Self)
        requires
            subsec_nanos < 1_000_000_000,
        ensures
            delay.nanos() == seconds * 1_000_000_000 + subsec_nanos,
    {
        Delay { nanos: seconds as u128 * 1_000_000_000 + subsec_nanos as u128 }
    }

    /// Creates a delay of whole seconds.
    pub fn from_secs(seconds: u64) -> (delay: Self)
        ensures
            delay.nanos() == seconds * 1_000_000_000,
    {
        Self::new(seconds, 0)
    }

    /// Creates a delay of whole milliseconds.
    pub fn from_millis(millis: u64) -> (delay: Self)
        ensures
            delay.nanos() == millis * 1_000_000,
    {
        Delay { nanos: millis as u128 * 1_000_000 }
    }

    /// Returns the whole seconds of this delay.
    pub fn as_secs(&self) -> (seconds: u64)
        ensures
            seconds == self.nanos() / 1_000_000_000,
    {
        proof {
            use_type_invariant(self);
        }
        (self.nanos / 1_000_000_000) as u64
    }

    /// Returns the fraction of a second of this delay in nanoseconds.
    pub fn subsec_nanos(&self) -> (nanos: u32)
        ensures
            nanos == self.nanos() % 1_000_000_000,
    {
        (self.nanos % 1_000_000_000) as u32
    }

    /// Returns the whole milliseconds of this delay.
    pub fn as_millis(&self) -> (millis: u128)
        ensures
            millis == self.nanos() / 1_000_000,
    {
        self.nanos / 1_000_000
    }
}

/// Reasons why two delays do not form a retry policy.
#[derive(Debug, Clone, Copy, PartialEq, Eq, Structural)]
pub enum RetryPolicyError {
    /// The initial delay must be positive.
    ZeroInitialDelay,
    /// The maximum delay must be at least the initial delay.
    MaximumBelowInitial,
}

impl RetryPolicyError {
    /// The text that describes this error.
    pub open spec fn text(self) -> Seq<char> {
        match self {
            RetryPolicyError::ZeroInitialDelay => "initial retry delay must be greater than zero"@,
            RetryPolicyError::MaximumBelowInitial => {
                "maximum retry delay must be at least the initial delay"@
            },
        }
    }

    /// Returns the text that describes this error.
    pub fn message(&self) -> (text: String)
        ensures
            text@ == self.text(),
    {
        match self {
            RetryPolicyError::ZeroInitialDelay => {
                "initial retry delay must be greater than zero".to_owned()
            },
            RetryPolicyError::MaximumBelowInitial => {
                "maximum retry delay must be at least the initial delay".to_owned()
            },
        }
    }
}

/// Retry delay configuration with an exponential cap.
#[derive(Debug, Clone, Copy, PartialEq, Eq, Structural)]
pub struct RetryPolicy {
    initial_delay: Delay,
    max_delay: Delay,
}

/// Content of a [`RetryPolicy`], in nanoseconds.
pub struct RetryModel {
    pub initial: nat,
    pub max: nat,
}

impl View for RetryPolicy {
    type V = RetryModel;

    closed spec fn view(&self) -> RetryModel {
        RetryModel { initial: self.initial_delay.nanos(), max: self.max_delay.nanos() }
    }
}

/// Why two delays do not form a policy, if they do not.
pub open spec fn policy_error(initial: nat, max: nat) -> Option<RetryPolicyError> {
    if initial == 0 {
        Some(RetryPolicyError::ZeroInitialDelay)
    } else if max < initial {
        Some(RetryPolicyError::MaximumBelowInitial)
    } else {
        None
    }
}

impl RetryModel {
    /// Whether both delays form a valid range.
    pub open spec fn valid(self) -> bool {
        0 < self.initial <= self.max
    }

    /// Delay in nanoseconds after a failed attempt: the initial delay, doubled
    /// for every attempt after the first, at most the maximum.
    pub open spec fn delay(self, attempt: u32) -> nat {
        let doublings = if attempt == 0 {
            0nat
        } else {
            (attempt - 1) as nat
        };
        if self.initial * pow2(doublings) < self.max {
            self.initial * pow2(doublings)
        } else {
            self.max
        }
    }

    /// Delay after a failed attempt in whole milliseconds that fit 64 bits.
    pub open spec fn delay_ms(self, attempt: u32) -> nat {
        let millis = self.delay(attempt) / 1_000_000;
        if millis < u64::MAX {
            millis
        } else {
            u64::MAX as nat
        }
    }

    /// When an attempt that failed at `now_ms` may be retried.
    pub open spec fn deadline_ms(self, now_ms: u64, attempt: u32) -> nat {
        if now_ms + self.delay_ms(attempt) < u64::MAX {
            now_ms as nat + self.delay_ms(attempt)
        } else {
            u64::MAX as nat
        }
    }
}

impl RetryPolicy {
    #[verifier::type_invariant]
    closed spec fn ordered(self) -> bool {
        0 < self.initial_delay.nanos() <= self.max_delay.nanos()
    }

    /// Creates a policy after checking that both delays form a valid range.
    pub fn new(initial_delay: Delay, max_delay: Delay) -> (result: Result<Self, RetryPolicyError>)
        ensures
            match result {
                Ok(policy) => {
                    &&& policy_error(initial_delay.nanos(), max_delay.nanos()) is None
                    &&& policy@.initial == initial_delay.nanos()
                    &&& policy@.max == max_delay.nanos()
                    &&& policy@.valid()
                },
                Err(error) => policy_error(initial_delay.nanos(), max_delay.nanos()) == Some(error),
            },
    {
        if initial_delay.nanos == 0 {
            return Err(RetryPolicyError::ZeroInitialDelay);
        }
        if max_delay.nanos < initial_delay.nanos {
            return Err(RetryPolicyError::MaximumBelowInitial);
        }
        Ok(RetryPolicy { initial_delay, max_delay })
    }

    /// Returns the exponential delay for a failed attempt, capped at
    /// `max_delay`.
    pub fn delay_for_attempt(self, attempt: u32) -> (delay: Delay)
        ensures
            delay.nanos() == self@.delay(attempt),
            self@.valid(),
    {
        proof {
            use_type_invariant(&self);
            use_type_invariant(&self.max_delay);
            lemma_pow2_unfold_zero();
        }
        let ghost initial = self@.initial;
        let ghost max = self@.max;
        let ghost all = if attempt == 0 {
            0nat
        } else {
            (attempt - 1) as nat
        };
        let limit: u128 = self.max_delay.nanos;
        let mut nanos: u128 = self.initial_delay.nanos;
        let mut remaining: u32 = if attempt == 0 {
            0
        } else {
            attempt - 1
        };
        proof {
            assert(initial * pow2(0) == initial) by (nonlinear_arith)
                requires
                    pow2(0) == 1,
            ;
        }
        while remaining > 0 && nanos < limit
            invariant
                remaining <= all,
                limit == max,
                limit <= MAX_DELAY_NANOS,
                nanos <= limit,
                nanos == (if initial * pow2((all - remaining) as nat) < max {
                    initial * pow2((all - remaining) as nat)
                } else {
                    max
                }),
            decreases remaining,
        {
            let ghost done = (all - remaining) as nat;
            proof {
                lemma_pow2_unfold(done + 1);
                assert(initial * pow2(done + 1) == 2 * (initial * pow2(done)))
                    by (nonlinear_arith)
                    requires
                        pow2(done + 1) == 2 * pow2(done),
                ;
            }
            let doubled: u128 = nanos * 2;
            nanos = if doubled < limit {
                doubled
            } else {
                limit
            };
            remaining = remaining - 1;
        }
        proof {
            if remaining > 0 {
                let done = (all - remaining) as nat;
                lemma_doubling_grows(initial, done, all);
            }
        }
        Delay { nanos }
    }

    /// Returns the configured initial delay.
    pub fn initial_delay(self) -> (delay: Delay)
        ensures
            delay.nanos() == self@.initial,
    {
        self.initial_delay
    }

    /// Returns the configured maximum delay.
    pub fn max_delay(self) -> (delay: Delay)
        ensures
            delay.nanos() == self@.max,
    {
        self.max_delay
    }
}

proof fn lemma_pow2_unfold_zero()
    ensures
        pow2(0) == 1,
{
    vstd::arithmetic::power2::lemma2_to64();
}

proof fn lemma_doubling_grows(initial: nat, few: nat, many: nat)
    requires
        few <= many,
    ensures
        initial * pow2(few) <= initial * pow2(many),
    decreases many - few,
{
    if few < many {
        lemma_pow2_unfold(few + 1);
        lemma_pow2_pos(few);
        assert(initial * pow2(few) <= initial * pow2(few + 1)) by (nonlinear_arith)
            requires
                pow2(few + 1) == 2 * pow2(few),
                pow2(few) > 0,
        ;
        lemma_doubling_grows(initial, few + 1, many);
    }
}

impl Default for RetryPolicy {
    fn default() -> (policy: Self)
        ensures
            policy@.initial == 1_000_000_000,
            policy@.max == 60_000_000_000,
            policy@.valid(),
    {
        RetryPolicy { initial_delay: Delay::from_secs(1), max_delay: Delay::from_secs(60) }
    }
}

/// Returns when an attempt that failed at `now_ms` may be retried.
pub fn retry_deadline_ms(now_ms: u64, policy: RetryPolicy, attempt: u32) -> (deadline: u64)
    ensures
        deadline == policy@.deadline_ms(now_ms, attempt),
{
    let millis = policy.delay_for_attempt(attempt).as_millis();
    let bounded: u64 = if millis < u64::MAX as u128 {
        millis as u64
    } else {
        u64::MAX
    };
    if bounded < u64::MAX - now_ms {
        now_ms + bounded
    } else {
        u64::MAX
    }
}

/// Delays never shrink from one attempt to the next, start at the initial delay
/// and never exceed the maximum.
pub proof fn law_retry_delays_grow_to_the_cap(policy: RetryModel, attempt: u32, later: u32)
    requires
        policy.valid(),
        attempt <= later,
    ensures
        policy.delay(attempt) <= policy.delay(later),
        policy.initial <= policy.delay(attempt) <= policy.max,
        policy.delay(1) == policy.initial,
{
    let few = if attempt == 0 {
        0nat
    } else {
        (attempt - 1) as nat
    };
    let many = if later == 0 {
        0nat
    } else {
        (later - 1) as nat
    };
    lemma_doubling_grows(policy.initial, few, many);
    lemma_doubling_grows(policy.initial, 0, few);
    lemma_pow2_unfold_zero();
    assert(policy.initial * 1 == policy.initial);
}

/// A retry never becomes due before its attempt failed.
pub proof fn law_retry_deadlines_are_not_in_the_past(policy: RetryModel, now_ms: u64, attempt: u32)
    requires
        policy.valid(),
    ensures
        now_ms <= policy.deadline_ms(now_ms, attempt) <= u64::MAX,
{
}

} // verus!
