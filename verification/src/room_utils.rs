use vstd::prelude::*;

verus! {

/// How long an offer or an answer stays valid after it was written.
pub const OFFER_TTL_DURATION_SEC: u64 = 10;

/// The number of seconds a client is asked to wait before polling again.
pub const RETRY_AFTER_INTERVAL_SEC: u32 = 3;

/// Seconds since the Unix epoch, from the system clock
/// (`UNIX_EPOCH.elapsed()`, its whole seconds), or `None` when the clock is
/// set before the epoch (the call's error). Nothing is promised of the
/// value: it is whatever the clock says.
#[verifier::external_body]
fn system_unix_secs() -> Option<u64> {
    std::time::UNIX_EPOCH.elapsed().ok().map(|d| d.as_secs())
}

/// The current time, in seconds since the Unix epoch; `None` when the
/// clock is set before the epoch.
pub fn now_sec() -> Option<u64> {
    system_unix_secs()
}

/// The second at which an entry written at `now_sec` expires.
pub fn ttl_sec(now_sec: u64) -> (ttl: u64)
    requires
        now_sec + OFFER_TTL_DURATION_SEC <= u64::MAX,
    ensures
        ttl == now_sec + OFFER_TTL_DURATION_SEC,
{
    now_sec + OFFER_TTL_DURATION_SEC
}

} // verus!
