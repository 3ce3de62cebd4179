//! The wall clock, read through chrono.

use vstd::prelude::*;

verus! {

/// Relies on chrono's `Local::now` and `DateTime::to_rfc3339`: the current
/// local time as RFC 3339 text. That text holds the date and the time of day
/// (at least 19 characters: a four-digit or signed year, two-digit month, day,
/// hour, minute and second with their separators) and then the offset as
/// `+hh:mm` or `-hh:mm` (6 characters). `Local::now` panics only when the
/// system clock stands before the Unix epoch.
#[verifier::external_body]
pub(crate) fn local_now_rfc3339() -> (r: String)
    ensures
        r@.len() >= 25,
{
    chrono::Local::now().to_rfc3339()
}

} // verus!
