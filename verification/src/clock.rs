//! The wall clock.

use vstd::prelude::*;

verus! {

/// Trusted: reads the system clock with `std::time::SystemTime::now`, turns
/// the reading into a `chrono::DateTime<Utc>` with chrono's `From` impl, and
/// reads that with `DateTime::timestamp_millis`: the milliseconds since the
/// start of 1970, negative for a clock that reads an earlier moment. The
/// conversion holds every moment within some 262,000 years of 1970 and is
/// undefined beyond them. The value changes from call to call, so nothing is
/// claimed about it.
#[verifier::external_body]
pub(crate) fn now_millis() -> (millis: i64) {
    chrono::DateTime::<chrono::Utc>::from(std::time::SystemTime::now()).timestamp_millis()
}

} // verus!
