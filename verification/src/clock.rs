//! Wall-clock access, for the callers that stamp run times themselves.

use vstd::prelude::*;

verus! {

/// Relies on chrono's `Utc::now` and `DateTime::timestamp`: the current
/// instant as whole non-leap seconds since the Unix epoch. `Utc::now`
/// refuses (by panicking) a system clock set before the epoch, so a
/// returned count is never negative; nothing further can be promised of a
/// clock reading.
#[verifier::external_body]
pub(crate) fn unix_now() -> (t: i64)
    ensures
        0 <= t,
{
    chrono::Utc::now().timestamp()
}

} // verus!
