//! How long a failed task waits, and when it may be retried.

use vstd::arithmetic::power2::lemma2_to64;
use vstd::arithmetic::power2::lemma_pow2_pos;
use vstd::arithmetic::power2::lemma_pow2_unfold;
use vstd::arithmetic::power2::pow2;
use vstd::prelude::*;

use super::retry_policy::retry_deadline_ms;
use super::retry_policy::Delay;
use super::retry_policy::RetryPolicy;
use super::retry_policy::RetryPolicyError;

verus! {

/// Two delays form a policy exactly when the first is positive and not longer than
/// the second; the policy gives both back. A missing initial delay is reported
/// before a maximum below it.
pub proof fn law_policies_are_ranges(
    initial: Delay,
    max: Delay,
    result: Result<RetryPolicy, RetryPolicyError>,
)
    requires
        call_ensures(RetryPolicy::new, (initial, max), result),
    ensures
        result is Ok <==> 0 < initial.nanos() <= max.nanos(),
        result matches Ok(policy) ==> policy@.initial == initial.nanos() && policy@.max
            == max.nanos(),
        result matches Err(error) ==> (error is ZeroInitialDelay <==> initial.nanos() == 0),
{
}

/// The first delay is the initial one, and each later delay is twice the one
/// before or the maximum, whichever is shorter.
pub proof fn law_delays_double_up_to_the_maximum(
    policy: RetryPolicy,
    attempt: u32,
    delay: Delay,
    next: Delay,
)
    requires
        attempt < u32::MAX,
        call_ensures(RetryPolicy::delay_for_attempt, (policy, attempt), delay),
        call_ensures(RetryPolicy::delay_for_attempt, (policy, (attempt + 1) as u32), next),
    ensures
        attempt <= 1 ==> delay.nanos() == policy@.initial,
        attempt == 0 ==> next.nanos() == policy@.initial,
        attempt >= 1 ==> next.nanos() == vstd::math::min(
            2 * delay.nanos() as int,
            policy@.max as int,
        ),
{
    lemma2_to64();
    let initial = policy@.initial;
    assert(initial * 1 == initial) by (nonlinear_arith);
    if attempt >= 1 {
        let few = (attempt - 1) as nat;
        lemma_pow2_unfold(few + 1);
        lemma_pow2_pos(few);
        assert(initial * pow2(few + 1) == 2 * (initial * pow2(few))) by (nonlinear_arith)
            requires
                pow2(few + 1) == 2 * pow2(few),
        ;
    }
}

/// A retry is due once the delay's whole milliseconds have passed, or at the end
/// of time where that comes first.
pub proof fn law_retries_are_due_when_the_delay_has_passed(
    policy: RetryPolicy,
    attempt: u32,
    now_ms: u64,
    delay: Delay,
    millis: u128,
    deadline: u64,
)
    requires
        call_ensures(RetryPolicy::delay_for_attempt, (policy, attempt), delay),
        call_ensures(Delay::as_millis, (&delay,), millis),
        call_ensures(retry_deadline_ms, (now_ms, policy, attempt), deadline),
    ensures
        deadline == vstd::math::min(now_ms + millis as int, 0xffff_ffff_ffff_ffff),
        millis * 1_000_000 <= delay.nanos() < (millis + 1) * 1_000_000,
{
}

/// The seconds and the fraction that a delay is made of are those it gives back.
pub proof fn law_delays_keep_their_length(
    seconds: u64,
    subsec_nanos: u32,
    delay: Delay,
    whole: u64,
    fraction: u32,
    millis: u64,
    short: Delay,
    shown: u128,
    long: Delay,
)
    requires
        subsec_nanos < 1_000_000_000,
        call_ensures(Delay::new, (seconds, subsec_nanos), delay),
        call_ensures(Delay::as_secs, (&delay,), whole),
        call_ensures(Delay::subsec_nanos, (&delay,), fraction),
        call_ensures(Delay::from_millis, (millis,), short),
        call_ensures(Delay::as_millis, (&short,), shown),
        call_ensures(Delay::from_secs, (seconds,), long),
    ensures
        whole == seconds,
        fraction == subsec_nanos,
        shown == millis,
        long.nanos() + subsec_nanos == delay.nanos(),
        1_000 * short.nanos() == 1_000_000_000 * millis,
        delay.nanos() == 1_000_000_000 * seconds + subsec_nanos,
{
}

/// What the errors of retry policies say.
pub proof fn law_policy_errors_are_described(error: RetryPolicyError, text: String)
    requires
        call_ensures(RetryPolicyError::message, (&error,), text),
    ensures
        error is ZeroInitialDelay ==> text@ == "initial retry delay must be greater than zero"@,
        error is MaximumBelowInitial ==> text@
            == "maximum retry delay must be at least the initial delay"@,
{
}

} // verus!
