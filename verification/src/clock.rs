//! The wall-clock boundary: one trusted sampler for "now", and the refresh
//! interval at which the display layer re-reads it. Everything else in the
//! crate takes instants as plain arguments.

use chrono::Utc;
use vstd::prelude::*;

verus! {

/// Interval, in milliseconds, at which the display layer samples the clock
/// to refresh the rendered elapsed times.
pub const TICK_INTERVAL_MS: u64 = 500;

/// Relies on chrono's `Utc::now` and `DateTime::timestamp_millis`: the
/// current wall-clock instant as whole milliseconds since the Unix epoch.
/// Nothing is assumed of the value; callers treat an instant lying before a
/// running timer's start as clock regression and clamp its contribution.
#[verifier::external_body]
pub(crate) fn now_millis() -> i64 {
    Utc::now().timestamp_millis()
}

} // verus!
