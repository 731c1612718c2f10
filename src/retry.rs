//! When and after how long a failed idempotent request is sent again.
use vstd::prelude::*;

use crate::auth::RetryConfig;

verus! {

pub open spec fn min_u64(a: u64, b: u64) -> u64 {
    if a <= b {
        a
    } else {
        b
    }
}

/// The delay before retry number `attempt` (counted from zero): the shortest
/// delay, doubled with every attempt, but never above the longest delay.
pub open spec fn backoff_delay(config: RetryConfig, attempt: nat) -> u64
    decreases attempt,
{
    if attempt == 0 {
        min_u64(config.min_retry_delay, config.max_retry_delay)
    } else {
        let before = backoff_delay(config, (attempt - 1) as nat);
        if before as int * 2 >= config.max_retry_delay {
            config.max_retry_delay
        } else {
            (before * 2) as u64
        }
    }
}

/// Once the delay reaches the longest delay it stays there.
proof fn lemma_backoff_stays_at_cap(config: RetryConfig, i: nat, j: nat)
    requires
        i <= j,
        backoff_delay(config, i) == config.max_retry_delay,
    ensures
        backoff_delay(config, j) == config.max_retry_delay,
    decreases j - i,
{
    if i < j {
        lemma_backoff_stays_at_cap(config, i, (j - 1) as nat);
    }
}

proof fn lemma_backoff_at_most_cap(config: RetryConfig, n: nat)
    ensures
        backoff_delay(config, n) <= config.max_retry_delay,
    decreases n,
{
    if n > 0 {
        lemma_backoff_at_most_cap(config, (n - 1) as nat);
    }
}

/// The delay in milliseconds before retry number `attempt`.
pub fn retry_delay(config: &RetryConfig, attempt: u32) -> (r: u64)
    ensures
        r == backoff_delay(*config, attempt as nat),
        r <= config.max_retry_delay,
{
    let mut delay = if config.min_retry_delay <= config.max_retry_delay {
        config.min_retry_delay
    } else {
        config.max_retry_delay
    };
    let mut i: u32 = 0;
    while i < attempt && delay < config.max_retry_delay
        invariant
            i <= attempt,
            delay == backoff_delay(*config, i as nat),
            delay <= config.max_retry_delay,
        decreases attempt - i,
    {
        delay = if delay >= config.max_retry_delay / 2 + config.max_retry_delay % 2 {
            config.max_retry_delay
        } else {
            delay * 2
        };
        i = i + 1;
    }
    proof {
        if i < attempt {
            lemma_backoff_stays_at_cap(*config, i as nat, attempt as nat);
        }
        lemma_backoff_at_most_cap(*config, attempt as nat);
    }
    delay
}

/// Statuses worth another try: a timeout, too many requests, and the
/// server-side failures that may pass.
pub open spec fn retriable_status(status: u16) -> bool {
    status == 408 || status == 429 || status == 500 || status == 502 || status == 503 || status
        == 504
}

/// Whether an idempotent request that failed on its attempt number `attempt`
/// (counted from zero) is sent again. `status` is `None` where no answer came.
pub fn should_retry(config: &RetryConfig, attempt: u32, status: Option<u16>) -> (r: bool)
    ensures
        r == (attempt < config.max_retries && match status {
            None => true,
            Some(s) => retriable_status(s),
        }),
{
    if attempt >= config.max_retries {
        return false;
    }
    match status {
        None => true,
        Some(s) => s == 408 || s == 429 || s == 500 || s == 502 || s == 503 || s == 504,
    }
}

} // verus!
