//! The retention window: when an archive has outlived it.

use vstd::prelude::*;

verus! {

/// Seconds in one hour.
pub const SECONDS_PER_HOUR: u64 = 3600;

/// The retention window in seconds, as a mathematical integer.
pub open spec fn retention_seconds_spec(retention_hours: u64) -> int {
    retention_hours as int * 3600
}

/// A file is expired when its age strictly exceeds the retention window.
/// A file whose modification time lies after `now` is never expired.
pub open spec fn is_expired_spec(now: u64, modified: u64, retention_hours: u64) -> bool {
    modified <= now && now as int - modified as int > retention_seconds_spec(retention_hours)
}

/// The retention window in seconds, or `None` where it does not fit in 64 bits.
pub fn retention_seconds(retention_hours: u64) -> (secs: Option<u64>)
    ensures
        secs is Some <==> retention_seconds_spec(retention_hours) <= u64::MAX,
        secs is Some ==> secs->0 as int == retention_seconds_spec(retention_hours),
{
    retention_hours.checked_mul(SECONDS_PER_HOUR)
}

/// Decides whether a file last modified at `modified` is to be deleted at
/// time `now` under a window of `retention_hours` hours.
pub fn is_expired(now: u64, modified: u64, retention_hours: u64) -> (expired: bool)
    ensures
        expired == is_expired_spec(now, modified, retention_hours),
{
    if modified > now {
        return false;
    }
    let age: u64 = now - modified;
    match retention_seconds(retention_hours) {
        Some(window) => age > window,
        None => false,
    }
}

/// At the boundary the comparison is strict: a file whose age is exactly
/// the retention window is kept, and one a second older is removed.
pub proof fn lemma_retention_boundary(now: u64, modified: u64, retention_hours: u64)
    requires
        modified <= now,
    ensures
        now - modified == retention_seconds_spec(retention_hours) ==> !is_expired_spec(
            now,
            modified,
            retention_hours,
        ),
        now - modified == retention_seconds_spec(retention_hours) + 1 ==> is_expired_spec(
            now,
            modified,
            retention_hours,
        ),
{
}

/// With a window of zero hours every file modified before `now` is expired,
/// and one modified at `now` is not.
pub proof fn lemma_zero_retention(now: u64, modified: u64)
    ensures
        modified < now ==> is_expired_spec(now, modified, 0),
        modified == now ==> !is_expired_spec(now, modified, 0),
{
}

/// A file stamped later than `now` is never expired, whatever the window.
pub proof fn lemma_future_file_kept(now: u64, modified: u64, retention_hours: u64)
    requires
        modified > now,
    ensures
        !is_expired_spec(now, modified, retention_hours),
{
}

/// A file that is expired stays expired as time goes on, and under any
/// shorter window.
pub proof fn lemma_expired_stays_expired(
    now: u64,
    later: u64,
    modified: u64,
    retention_hours: u64,
    shorter_hours: u64,
)
    requires
        is_expired_spec(now, modified, retention_hours),
        now <= later,
        shorter_hours <= retention_hours,
    ensures
        is_expired_spec(later, modified, shorter_hours),
{
}

} // verus!
