//! The calendar conversions, which are arrow2's.

use chrono::{NaiveDate, NaiveDateTime};
use vstd::prelude::*;

verus! {

/// The number of days from the first day of the common era to the Unix
/// epoch, which arrow2 adds to a day count before it asks chrono for the date.
pub const EPOCH_DAYS_FROM_CE: i32 = 719_163;

/// The date-time that `arrow2::temporal_conversions::timestamp_ns_to_datetime`
/// gives for a count of nanoseconds since the Unix epoch.
pub uninterp spec fn timestamp_ns_as_datetime(ns: i64) -> NaiveDateTime;

/// What `arrow2::temporal_conversions::date32_to_date_opt` gives for a count
/// of days since the Unix epoch: the date, or nothing where chrono cannot
/// represent it.
pub uninterp spec fn date32_as_date(days: i32) -> Option<NaiveDate>;

/// Calls `arrow2::temporal_conversions::timestamp_ns_to_datetime`. The claim
/// is only that the result is a function of the argument. The call cannot
/// fail: every `i64` count of nanoseconds lies within about 292 years of the
/// epoch, far inside chrono's range, and the sub-second part that arrow2
/// hands on is below one second.
#[verifier::external_body]
pub(crate) fn timestamp_ns_to_datetime(ns: i64) -> (r: NaiveDateTime)
    ensures
        r == timestamp_ns_as_datetime(ns),
{
    arrow2::temporal_conversions::timestamp_ns_to_datetime(ns)
}

/// Calls `arrow2::temporal_conversions::date32_to_date_opt`. The claim is only
/// that the result is a function of the argument. arrow2 adds
/// `EPOCH_DAYS_FROM_CE` to the count in `i32`, so the counts on which that
/// sum overflows are left out.
#[verifier::external_body]
pub(crate) fn date32_to_date_opt(days: i32) -> (r: Option<NaiveDate>)
    requires
        days <= i32::MAX - EPOCH_DAYS_FROM_CE,
    ensures
        r == date32_as_date(days),
{
    arrow2::temporal_conversions::date32_to_date_opt(days)
}

} // verus!
