//! The period that the system clock is in.
use chrono::Datelike;
use vstd::prelude::*;

verus! {

/// The year and the month of the current instant, in UTC.
///
/// Trusted: the body calls `chrono::Utc::now()` and reads the result with
/// `Datelike::year` and `Datelike::month`. Nothing is claimed of the year.
/// Of the month the contract claims what chrono documents: it is counted
/// from 1 and ranges from 1 to 12. `Utc::now()` panics where the system
/// clock stands before 1970 or beyond the dates chrono can hold.
#[verifier::external_body]
pub(crate) fn current_period() -> (period: (i32, u32))
    ensures
        1 <= period.1 <= 12,
{
    let now = chrono::Utc::now();
    (now.year(), now.month())
}

} // verus!
