use vstd::prelude::*;

use crate::error::ServiceError;
use crate::text::{lossy_text, utf8_lossy};

verus! {

/// What one attempt of an inference request came back with.
#[derive(Debug, Clone)]
pub enum AttemptOutcome {
    /// A success status, with the response's bytes.
    Success(Vec<u8>),
    /// A non-success status, with the response's bytes.
    HttpFailure { status: u16, body: Vec<u8> },
    /// No response: the transport failed, as described.
    TransportFailure(String),
}

/// What to do after an attempt.
#[derive(Debug, Clone)]
pub enum RetryStep {
    /// Hand these bytes to the guest.
    Done(Vec<u8>),
    /// Wait the fixed delay, then make the next attempt.
    RetryAfterDelay,
    /// Give up with this error.
    Fail(ServiceError),
}

/// The fixed wait between two attempts, in milliseconds.
pub fn retry_delay_ms() -> (r: u64)
    ensures
        r == 1000,
{
    1000
}

/// The error that a failed attempt surfaces as when it is the last one.
pub open spec fn failure_error(o: AttemptOutcome, e: ServiceError) -> bool {
    match o {
        AttemptOutcome::Success(_) => false,
        AttemptOutcome::HttpFailure { status, body } => e matches ServiceError::RequestFailed {
            status: s,
            message: m,
        } && s == status && m@ == lossy_text(body@),
        AttemptOutcome::TransportFailure(d) => e == ServiceError::Network(d),
    }
}

/// The step after attempt `attempt` (counted from 0) of `max_attempts`: a
/// success ends the run, a failure retries unless it was the last attempt,
/// when it surfaces.
pub open spec fn step_after(attempt: nat, max_attempts: nat, o: AttemptOutcome, s: RetryStep) -> bool {
    match o {
        AttemptOutcome::Success(b) => s == RetryStep::Done(b),
        _ => if attempt + 1 < max_attempts {
            s == RetryStep::RetryAfterDelay
        } else {
            s matches RetryStep::Fail(e) && failure_error(o, e)
        },
    }
}

/// Decides what follows an attempt.
pub fn next_step(attempt: u32, max_attempts: u32, outcome: AttemptOutcome) -> (r: RetryStep)
    requires
        attempt < max_attempts,
    ensures
        step_after(attempt as nat, max_attempts as nat, outcome, r),
{
    match outcome {
        AttemptOutcome::Success(b) => RetryStep::Done(b),
        AttemptOutcome::HttpFailure { status, body } => {
            if attempt + 1 < max_attempts {
                RetryStep::RetryAfterDelay
            } else {
                let message = utf8_lossy(body.as_slice());
                RetryStep::Fail(ServiceError::RequestFailed { status, message })
            }
        },
        AttemptOutcome::TransportFailure(d) => {
            if attempt + 1 < max_attempts {
                RetryStep::RetryAfterDelay
            } else {
                RetryStep::Fail(ServiceError::Network(d))
            }
        },
    }
}

/// Whether a request may be attempted at all: with no attempt configured it
/// fails at once.
pub fn check_attempts(max_attempts: u32) -> (r: Option<ServiceError>)
    ensures
        r is None <==> max_attempts > 0,
        r matches Some(e) ==> (e matches ServiceError::RequestFailed { status: s, message: m }
            && s == 500 && m@ == "Max retry attempts reached"@),
{
    if max_attempts > 0 {
        None
    } else {
        Some(
            ServiceError::RequestFailed {
                status: 500,
                message: String::from_str("Max retry attempts reached"),
            },
        )
    }
}

/// The number of attempts made, counted from attempt `k`, when the backend
/// answers attempt `i` with `outcomes[i]`.
pub open spec fn attempts_made(max_attempts: nat, outcomes: Seq<AttemptOutcome>, k: nat) -> nat
    decreases max_attempts - k,
{
    if k >= max_attempts {
        k
    } else if outcomes[k as int] is Success || k + 1 >= max_attempts {
        k + 1
    } else {
        attempts_made(max_attempts, outcomes, k + 1)
    }
}

/// A backend that fails every attempt: exactly `max_attempts` attempts are
/// made, and the last one's failure is what surfaces.
pub proof fn lemma_retry_exhaustion(max_attempts: nat, outcomes: Seq<AttemptOutcome>, last: RetryStep)
    requires
        max_attempts >= 1,
        outcomes.len() >= max_attempts,
        forall|i: int| 0 <= i < outcomes.len() ==> !(#[trigger] outcomes[i] is Success),
        step_after((max_attempts - 1) as nat, max_attempts, outcomes[max_attempts - 1], last),
    ensures
        attempts_made(max_attempts, outcomes, 0) == max_attempts,
        forall|k: nat| k + 1 < max_attempts ==> step_after(k, max_attempts, #[trigger] outcomes[k as int], RetryStep::RetryAfterDelay),
        last matches RetryStep::Fail(e) && failure_error(outcomes[max_attempts - 1], e),
{
    lemma_all_failures_count(max_attempts, outcomes, 0);
}

proof fn lemma_all_failures_count(max_attempts: nat, outcomes: Seq<AttemptOutcome>, k: nat)
    requires
        k < max_attempts,
        outcomes.len() >= max_attempts,
        forall|i: int| 0 <= i < outcomes.len() ==> !(#[trigger] outcomes[i] is Success),
    ensures
        attempts_made(max_attempts, outcomes, k) == max_attempts,
    decreases max_attempts - k,
{
    assert(!(outcomes[k as int] is Success));
    if k + 1 < max_attempts {
        lemma_all_failures_count(max_attempts, outcomes, k + 1);
    }
}

/// A backend that fails the first `n` attempts and then succeeds, within
/// `max_attempts`: `n + 1` attempts are made, and the success's bytes are the
/// result.
pub proof fn lemma_retry_success(
    max_attempts: nat,
    outcomes: Seq<AttemptOutcome>,
    n: nat,
    last: RetryStep,
)
    requires
        n < max_attempts,
        outcomes.len() > n,
        forall|i: int| 0 <= i < n ==> !(#[trigger] outcomes[i] is Success),
        outcomes[n as int] is Success,
        step_after(n, max_attempts, outcomes[n as int], last),
    ensures
        attempts_made(max_attempts, outcomes, 0) == n + 1,
        forall|k: nat| k < n ==> step_after(k, max_attempts, #[trigger] outcomes[k as int], RetryStep::RetryAfterDelay),
        last == RetryStep::Done(outcomes[n as int]->Success_0),
{
    lemma_success_count(max_attempts, outcomes, n, 0);
}

proof fn lemma_success_count(max_attempts: nat, outcomes: Seq<AttemptOutcome>, n: nat, k: nat)
    requires
        k <= n < max_attempts,
        outcomes.len() > n,
        forall|i: int| 0 <= i < n ==> !(#[trigger] outcomes[i] is Success),
        outcomes[n as int] is Success,
    ensures
        attempts_made(max_attempts, outcomes, k) == n + 1,
    decreases n - k,
{
    if k < n {
        assert(!(outcomes[k as int] is Success));
        lemma_success_count(max_attempts, outcomes, n, k + 1);
    }
}

} // verus!
