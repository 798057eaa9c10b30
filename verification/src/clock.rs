//! The service's clock: timestamps are microseconds since the Unix epoch.

use vstd::prelude::*;

verus! {

/// Relies on chrono's `Utc::now` for the current time.  The result depends
/// on the wall clock, so nothing is promised of it: every caller must be
/// correct for an arbitrary timestamp.  Note that `Utc::now` itself panics
/// on a machine whose clock is set before the Unix epoch.
#[verifier::external_body]
pub fn now_micros() -> i64 {
    chrono::Utc::now().timestamp_micros()
}

} // verus!
