//! Wall-clock reading, in milliseconds since the Unix epoch.

use vstd::prelude::*;

verus! {

/// Relies on chrono::Utc::now for the current wall-clock time.
/// Nothing is assumed of the value: the clock is outside the
/// program's control, so callers state what holds whatever it reads.
#[verifier::external_body]
pub(crate) fn now_millis() -> u64 {
    u64::try_from(chrono::Utc::now().timestamp_millis()).unwrap_or(0)
}

} // verus!
