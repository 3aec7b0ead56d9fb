//! Calendar dates, which the library carries but does not look into: the
//! number of days between two dates comes from `chrono`.
use vstd::prelude::*;
use chrono::NaiveDate;
use chrono::TimeDelta;

verus! {

/// `chrono::NaiveDate`, a calendar date without a time zone. The verifier
/// sees nothing inside it.
#[verifier::external_type_specification]
#[verifier::external_body]
pub struct ExNaiveDate(chrono::NaiveDate);

/// `chrono::TimeDelta`, a signed span of time. The verifier sees nothing
/// inside it.
#[verifier::external_type_specification]
#[verifier::external_body]
pub struct ExTimeDelta(chrono::TimeDelta);

/// The span of time from the date `earlier` to the date `later`, as
/// `NaiveDate::signed_duration_since` gives it.
pub uninterp spec fn span_between(later: NaiveDate, earlier: NaiveDate) -> TimeDelta;

/// The number of whole days in a span of time, as `TimeDelta::num_days` gives
/// it; negative for a span that runs backwards.
pub uninterp spec fn whole_days(span: TimeDelta) -> int;

/// No two dates that `NaiveDate` can hold are this many days apart: the type
/// ranges from the year 262144 BCE to the year 262142 CE, about 525,000
/// years or 191.5 million days.
pub const DAY_SPAN_LIMIT: i64 = 200_000_000;

/// The number of days from `earlier` to `later`; negative if `later` is the
/// earlier of the two.
pub open spec fn days_between(earlier: NaiveDate, later: NaiveDate) -> int {
    whole_days(span_between(later, earlier))
}

/// `NaiveDate::signed_duration_since` subtracts the second date from the
/// first. Claimed here: the result depends on the two dates alone, and its
/// length in days stays below `DAY_SPAN_LIMIT`, the width of the type's range.
pub assume_specification[ chrono::NaiveDate::signed_duration_since ](
    later: NaiveDate,
    earlier: NaiveDate,
) -> (span: TimeDelta)
    ensures
        span == span_between(later, earlier),
        -DAY_SPAN_LIMIT < whole_days(span) < DAY_SPAN_LIMIT,
;

/// `TimeDelta::num_days` gives the number of whole days in a span. Claimed
/// here: the result depends on the span alone.
pub assume_specification[ chrono::TimeDelta::num_days ](span: &TimeDelta) -> (days: i64)
    ensures
        days == whole_days(*span),
;

/// Counts the days from `planting_date` to `date`.
pub fn days_since(date: NaiveDate, planting_date: NaiveDate) -> (days: i32)
    ensures
        days == days_between(planting_date, date),
{
    let days: i64 = date.signed_duration_since(planting_date).num_days();
    days as i32
}

} // verus!
