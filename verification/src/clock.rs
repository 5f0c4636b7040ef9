//! The clock.

use vstd::prelude::*;

verus! {

/// Relies on chrono's `Utc::now` and `DateTime::timestamp_millis`: the
/// current time, in milliseconds since the Unix epoch. Nothing is assumed
/// about the value — the system clock may read anything — and the store is
/// verified for every timestamp handed to it. Panics only when the system
/// clock reads before the Unix epoch.
#[verifier::external_body]
pub(crate) fn now_millis() -> (r: i64) {
    chrono::Utc::now().timestamp_millis()
}

} // verus!
