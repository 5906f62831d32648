//! Freshness policy: decides whether a cache entry is recent enough to serve.

use vstd::prelude::*;

verus! {

/// A cache entry is served without refetching while it is younger than
/// five minutes.
pub const MAX_AGE_MILLIS: u64 = 300_000;

/// Whether an entry written at `last_updated` is still fresh at `now`,
/// for the given maximum age. All times are milliseconds since the Unix
/// epoch. A clock that went backwards (`now < last_updated`) counts as
/// fresh, matching a signed age comparison.
pub fn is_fresh(last_updated: u64, now: u64, max_age: u64) -> (r: bool)
    ensures
        r == (now < last_updated + max_age),
{
    if now >= last_updated {
        now - last_updated < max_age
    } else {
        true
    }
}

} // verus!
