//! The two places where the mock leans on an outside crate: the clock
//! and the random number generator.

use vstd::prelude::*;

verus! {

/// Relies on chrono's `Utc::now` and `DateTime::timestamp`: the current
/// time as a Unix timestamp in seconds.  The result depends on the
/// clock, so nothing is promised of it; callers state what holds of
/// every timestamp.
#[verifier::external_body]
pub fn now_timestamp() -> i64 {
    chrono::Utc::now().timestamp()
}

/// Relies on rand's `Rng::gen_range`: a value sampled uniformly from the
/// inclusive range `lo..=hi`, which must not be empty (`gen_range`
/// panics on an empty range).
#[verifier::external_body]
pub fn draw_in_range(lo: i32, hi: i32) -> (r: i32)
    requires
        lo <= hi,
    ensures
        lo <= r <= hi,
{
    rand::Rng::gen_range(&mut rand::thread_rng(), lo..=hi)
}

} // verus!
