//! The database's reports and its rule for retrying busy operations.
use vstd::prelude::*;

verus! {

/// Row counts of the main tables.
#[derive(Debug, Clone)]
pub struct DatabaseStats {
    pub user_count: u64,
    pub track_count: u64,
    pub album_count: u64,
    pub artist_count: u64,
    pub playlist_count: u64,
    pub listening_history_count: u64,
    pub recommendation_count: u64,
}

/// Rows removed by a cleanup.
#[derive(Debug, Clone)]
pub struct CleanupResult {
    pub listening_history_deleted: u64,
    pub recommendations_deleted: u64,
    pub playlist_entries_deleted: u64,
    pub orphaned_tracks_deleted: u64,
}

/// Size of the database file, in bytes.
#[derive(Debug, Clone)]
pub struct DatabaseSizeInfo {
    pub total_size: u64,
    pub used_size: u64,
    pub free_size: u64,
}

/// What to do after an operation failed.
pub enum RetryStep {
    /// Wait this many milliseconds, then try again.
    RetryAfter(u64),
    /// Give up and report the failure.
    GiveUp,
}

/// At most this many attempts are made.
pub const MAX_ATTEMPTS: u32 = 3;

/// 2 to the power `n`.
pub open spec fn pow2(n: nat) -> nat
    decreases n,
{
    if n == 0 {
        1
    } else {
        2 * pow2((n - 1) as nat)
    }
}

/// The decision after the `attempts`-th failed attempt (counting from 1):
/// give up after the third, or when the failure is not SQLite's "busy"
/// (code 5); otherwise wait 100 ms, doubled for each earlier attempt.
pub fn retry_step(attempts: u32, busy: bool) -> (r: RetryStep)
    requires
        attempts >= 1,
    ensures
        (attempts >= MAX_ATTEMPTS || !busy) ==> r is GiveUp,
        (attempts < MAX_ATTEMPTS && busy) ==> (r matches RetryStep::RetryAfter(d) && d == 100
            * pow2((attempts - 1) as nat)),
{
    if attempts >= MAX_ATTEMPTS || !busy {
        return RetryStep::GiveUp;
    }
    let d: u64 = if attempts == 1 {
        100
    } else {
        200
    };
    proof {
        assert(pow2(0) == 1);
        assert(pow2(1) == 2 * pow2(0));
    }
    RetryStep::RetryAfter(d)
}

/// Whether a database error code is SQLite's "busy" code.
pub fn is_busy_code(code: Option<&str>) -> (r: bool)
    ensures
        r == (code matches Some(c) && c@ == "5"@),
{
    match code {
        Some(c) => {
            let v = crate::text::chars_of(c);
            let five = crate::text::chars_of("5");
            crate::text::chars_eq(&v, &five)
        },
        None => false,
    }
}

} // verus!
