use vstd::prelude::*;

verus! {

/// The delay before the attempt that follows `attempt` failures: 50 ms doubled per failure,
/// at most one second.
pub open spec fn backoff_spec(attempt: nat) -> nat {
    let e: nat = if attempt < 5 { attempt } else { 5 };
    let ms = 50 * vstd::arithmetic::power2::pow2(e);
    if ms < 1000 {
        ms
    } else {
        1000
    }
}

/// The delay before the next attempt, in milliseconds, after `attempt` failed attempts.
pub fn backoff_millis(attempt: usize) -> (r: u64)
    ensures
        r == backoff_spec(attempt as nat),
{
    let exponent: u64 = if attempt < 5 {
        attempt as u64
    } else {
        5
    };
    proof {
        vstd::arithmetic::power2::lemma2_to64();
    }
    let factor: u64 = 1u64 << exponent;
    assert(factor == vstd::arithmetic::power2::pow2(exponent as nat)) by {
        vstd::bits::lemma_u64_shl_is_mul(1, exponent);
        vstd::arithmetic::power2::lemma_pow2(exponent as nat);
    }
    let millis: u64 = 50 * factor;
    if millis < 1000 {
        millis
    } else {
        1000
    }
}

/// What `Duration::from_millis` returns for a number of milliseconds.
pub uninterp spec fn duration_of_millis(ms: u64) -> std::time::Duration;

/// Relies on `Duration::from_millis`, which builds a span of that many milliseconds; the span
/// depends on the number alone.
#[verifier::external_body]
fn millis(ms: u64) -> (r: std::time::Duration)
    ensures
        r == duration_of_millis(ms),
{
    std::time::Duration::from_millis(ms)
}

/// The delay before the next attempt after `attempt` failed attempts.
pub fn backoff(attempt: usize) -> (r: std::time::Duration)
    ensures
        r == duration_of_millis(backoff_spec(attempt as nat) as u64),
{
    millis(backoff_millis(attempt))
}

/// Whether a status code is a success (200..=299).
pub open spec fn success_spec(status: u16) -> bool {
    200 <= status <= 299
}

/// Whether a status code is a server error (500..=599).
pub open spec fn server_error_spec(status: u16) -> bool {
    500 <= status <= 599
}

/// Tests whether a status code is a success.
pub fn is_success(status: u16) -> (r: bool)
    ensures
        r == success_spec(status),
{
    200 <= status && status <= 299
}

/// What one attempt at a request came to.
pub enum AttemptOutcome {
    /// The server answered with this status.
    Answered(u16),
    /// The transport failed; `retryable` when it was a timeout or a failed connection.
    TransportFailed { retryable: bool },
}

/// What the executor does after an attempt.
#[derive(Debug, PartialEq, Eq, Structural)]
pub enum RetryStep {
    /// Hand the response to the caller.
    Deliver,
    /// Hand the transport failure to the caller.
    Fail,
    /// Wait `delay_ms`, then make attempt number `attempt` (counting from zero).
    Retry { attempt: usize, delay_ms: u64 },
}

/// The decision after attempt number `attempt` (counting from zero) out of `max_attempts`.
pub open spec fn next_step_spec(attempt: nat, max_attempts: nat, outcome: AttemptOutcome) -> RetryStep
    recommends
        attempt + 1 <= usize::MAX,
{
    let more = attempt + 1 < max_attempts;
    let retry = RetryStep::Retry {
        attempt: (attempt + 1) as usize,
        delay_ms: backoff_spec(attempt + 1) as u64,
    };
    match outcome {
        AttemptOutcome::Answered(status) => if server_error_spec(status) && more {
            retry
        } else {
            RetryStep::Deliver
        },
        AttemptOutcome::TransportFailed { retryable } => if retryable && more {
            retry
        } else {
            RetryStep::Fail
        },
    }
}

/// Decides, after attempt number `attempt` out of `max_attempts`, whether to retry: a server
/// error (5xx) or a retryable transport failure is retried while attempts remain, after the
/// backoff delay; any other answer is delivered, any other failure is final.
pub fn next_step(attempt: usize, max_attempts: usize, outcome: AttemptOutcome) -> (r: RetryStep)
    requires
        attempt < max_attempts,
    ensures
        r == next_step_spec(attempt as nat, max_attempts as nat, outcome),
        r matches RetryStep::Retry { attempt: next, .. } ==> next == attempt + 1 && next
            < max_attempts,
{
    let more = attempt + 1 < max_attempts;
    match outcome {
        AttemptOutcome::Answered(status) => {
            if 500 <= status && status <= 599 && more {
                RetryStep::Retry { attempt: attempt + 1, delay_ms: backoff_millis(attempt + 1) }
            } else {
                RetryStep::Deliver
            }
        },
        AttemptOutcome::TransportFailed { retryable } => {
            if retryable && more {
                RetryStep::Retry { attempt: attempt + 1, delay_ms: backoff_millis(attempt + 1) }
            } else {
                RetryStep::Fail
            }
        },
    }
}

/// What `reqwest::Error::is_timeout` answers for an error.
pub uninterp spec fn timeout_of(e: reqwest::Error) -> bool;

/// What `reqwest::Error::is_connect` answers for an error.
pub uninterp spec fn connect_of(e: reqwest::Error) -> bool;

/// Relies on `reqwest::Error::is_timeout`, which tells whether a failure was a timeout by
/// walking the error's own source chain, so its answer depends on the error alone.
pub assume_specification[ reqwest::Error::is_timeout ](e: &reqwest::Error) -> (r: bool)
    ensures
        r == timeout_of(*e),
;

/// Relies on `reqwest::Error::is_connect`, which tells whether a failure was a failed
/// connection by walking the error's own source chain, so its answer depends on the error alone.
pub assume_specification[ reqwest::Error::is_connect ](e: &reqwest::Error) -> (r: bool)
    ensures
        r == connect_of(*e),
;

/// Whether a transport failure may be retried: a timeout or a failed connection.
pub fn should_retry(err: &reqwest::Error) -> (r: bool)
    ensures
        r == (timeout_of(*err) || connect_of(*err)),
{
    err.is_timeout() || err.is_connect()
}

/// The backoff reaches its ceiling of one second at the fifth attempt and stays there.
pub proof fn backoff_ceiling(attempt: nat)
    ensures
        backoff_spec(attempt) <= 1000,
        attempt >= 5 ==> backoff_spec(attempt) == 1000,
        backoff_spec(1) == 100,
{
    vstd::arithmetic::power2::lemma2_to64();
}

} // verus!
