//! Retrying a failed request with backoff: whether another attempt is made.
use vstd::prelude::*;

verus! {

/// Whether a request is tried again after its `failed_attempts`-th failure
/// (counting from 1) when at most `max_retries` retries are allowed.
pub open spec fn retries_left(failed_attempts: nat, max_retries: nat) -> bool {
    failed_attempts <= max_retries
}

/// After the `failed_attempts`-th failed attempt: try again (after the
/// backoff delay), or give up and report the last error.
pub fn should_retry(failed_attempts: u32, max_retries: u32) -> (r: bool)
    ensures
        r == retries_left(failed_attempts as nat, max_retries as nat),
{
    failed_attempts <= max_retries
}

/// A request that keeps failing is tried `max_retries + 1` times in all:
/// every failure before the last is retried, the last is not.
pub proof fn attempts_are_bounded(max_retries: nat, failed_attempts: nat)
    requires
        failed_attempts >= 1,
    ensures
        retries_left(failed_attempts, max_retries) <==> failed_attempts < max_retries + 1,
        !retries_left(max_retries + 1, max_retries),
{
}

} // verus!
