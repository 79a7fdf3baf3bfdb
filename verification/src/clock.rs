//! The reference time a sweep judges every post against, read from the
//! system clock once, at sweep start.

use vstd::prelude::*;

verus! {

/// Relies on chrono's `From<SystemTime> for DateTime<Utc>` and
/// `DateTime::timestamp`: reads the system clock as whole seconds since the
/// Unix epoch.  The conversion handles a clock that reads before the epoch
/// (unlike `Utc::now`, which panics there).  Nothing is promised of the
/// value: what the clock reads depends on the machine and the moment, so
/// callers state what holds whatever came back.
#[verifier::external_body]
pub(crate) fn now_timestamp_seconds() -> i64 {
    chrono::DateTime::<chrono::Utc>::from(std::time::SystemTime::now()).timestamp()
}

} // verus!
