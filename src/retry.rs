//! The write-failure policy: retryable failures are retried a bounded number
//! of times with capped exponential backoff, then recorded; non-retryable
//! failures are recorded at once.
use vstd::prelude::*;

verus! {

/// How one attempt at a write ended.
#[derive(Debug, Clone, Copy, PartialEq, Eq)]
pub enum WriteOutcome {
    Applied,
    /// A transient failure of the network or the store.
    Retryable,
    /// A failure that a retry cannot mend, such as malformed data.
    NonRetryable,
}

/// Why a write failed, as far as the policy needs to know.
#[derive(Debug, Clone, Copy, PartialEq, Eq)]
pub enum FailureKind {
    /// The store could not be reached, or the connection broke.
    Connection,
    /// The store or the request timed out.
    Timeout,
    /// The store is overloaded, starting up, or lacks live replicas.
    Unavailable,
    /// The store refused the statement or its values.
    Rejected,
}

pub open spec fn outcome_of(k: FailureKind) -> WriteOutcome {
    match k {
        FailureKind::Rejected => WriteOutcome::NonRetryable,
        _ => WriteOutcome::Retryable,
    }
}

/// Classifies a failure: only a refused statement is not worth a retry.
pub fn classify(k: FailureKind) -> (r: WriteOutcome)
    ensures
        r == outcome_of(k),
{
    match k {
        FailureKind::Rejected => WriteOutcome::NonRetryable,
        _ => WriteOutcome::Retryable,
    }
}

/// What the executor does next with a write.
#[derive(Debug, Clone, Copy, PartialEq, Eq)]
pub enum Step {
    Done,
    RetryAfter { delay_ms: u64 },
    /// Record the failure and go on with the next write.
    Record { retryable: bool },
}

/// At most `max_attempts` attempts per write; the first retry waits
/// `base_delay_ms`, each later one twice as long, never over `max_delay_ms`.
#[derive(Debug, Clone, Copy, PartialEq, Eq)]
pub struct RetryPolicy {
    pub max_attempts: u32,
    pub base_delay_ms: u64,
    pub max_delay_ms: u64,
}

/// The wait after the given attempt (counted from one; zero counts as one).
pub open spec fn backoff(base: int, cap: int, attempt: nat) -> int
    decreases attempt,
{
    if attempt <= 1 {
        if base <= cap { base } else { cap }
    } else {
        let twice = 2 * backoff(base, cap, (attempt - 1) as nat);
        if twice <= cap { twice } else { cap }
    }
}

pub open spec fn step_for(p: RetryPolicy, attempt: u32, outcome: WriteOutcome) -> Step {
    match outcome {
        WriteOutcome::Applied => Step::Done,
        WriteOutcome::NonRetryable => Step::Record { retryable: false },
        WriteOutcome::Retryable => if attempt < p.max_attempts {
            Step::RetryAfter {
                delay_ms: backoff(p.base_delay_ms as int, p.max_delay_ms as int, attempt as nat) as u64,
            }
        } else {
            Step::Record { retryable: true }
        },
    }
}

/// The wait before retrying after the given attempt.
pub fn backoff_delay(p: &RetryPolicy, attempt: u32) -> (r: u64)
    ensures
        r == backoff(p.base_delay_ms as int, p.max_delay_ms as int, attempt as nat),
        r <= p.max_delay_ms,
{
    let cap = p.max_delay_ms;
    let mut d: u64 = if p.base_delay_ms <= cap { p.base_delay_ms } else { cap };
    let mut i: u32 = 1;
    while i < attempt
        invariant
            1 <= i,
            i <= attempt || i == 1,
            d == backoff(p.base_delay_ms as int, cap as int, i as nat),
            d <= cap,
            cap == p.max_delay_ms,
        decreases attempt - i,
    {
        d = if d <= cap / 2 { d * 2 } else { cap };
        i = i + 1;
    }
    assert(d == backoff(p.base_delay_ms as int, p.max_delay_ms as int, attempt as nat)) by {
        if attempt == 0 {
            assert(backoff(p.base_delay_ms as int, cap as int, 0) == backoff(
                p.base_delay_ms as int,
                cap as int,
                1,
            ));
        }
    }
    d
}

/// Decides what follows an attempt at a write: done when it was applied,
/// a retry after the backoff while attempts are left for a retryable
/// failure, and otherwise the failure is recorded.
pub fn next_step(p: &RetryPolicy, attempt: u32, outcome: WriteOutcome) -> (r: Step)
    ensures
        r == step_for(*p, attempt, outcome),
        r matches Step::RetryAfter { delay_ms } ==> attempt < p.max_attempts
            && delay_ms <= p.max_delay_ms,
{
    match outcome {
        WriteOutcome::Applied => Step::Done,
        WriteOutcome::NonRetryable => Step::Record { retryable: false },
        WriteOutcome::Retryable => if attempt < p.max_attempts {
            Step::RetryAfter { delay_ms: backoff_delay(p, attempt) }
        } else {
            Step::Record { retryable: true }
        },
    }
}

} // verus!
