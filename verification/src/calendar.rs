//! The calendar range that dates and times can lie in, and the month
//! before a month.

use vstd::prelude::*;

verus! {

/// The first second (since the epoch) that a date and time can have: the
/// start of the year -262143.
pub const MIN_TIMESTAMP: i64 = -8_334_601_228_800;

/// The last second (since the epoch) that a date and time can have: the
/// end of the year 262142. Moving a time past it fails.
pub const MAX_TIMESTAMP: i64 = 8_210_266_876_799;

/// Gives `chrono::DateTime::<chrono::Utc>::MAX_UTC.timestamp()`. Trusted:
/// it is `MAX_TIMESTAMP`, the last second of December 31 of the year 262142
/// (the crate's `NaiveDateTime::MAX`).
#[verifier::external_body]
pub fn chrono_max_timestamp() -> (r: i64)
    ensures
        r == MAX_TIMESTAMP,
{
    chrono::DateTime::<chrono::Utc>::MAX_UTC.timestamp()
}

/// Gives `chrono::DateTime::<chrono::Utc>::MIN_UTC.timestamp()`. Trusted:
/// it is `MIN_TIMESTAMP`, the first second of January 1 of the year
/// -262143 (the crate's `NaiveDateTime::MIN`).
#[verifier::external_body]
pub fn chrono_min_timestamp() -> (r: i64)
    ensures
        r == MIN_TIMESTAMP,
{
    chrono::DateTime::<chrono::Utc>::MIN_UTC.timestamp()
}

/// The earliest year a calendar date may have.
pub const MIN_DATE_YEAR: i32 = -262143;

/// The latest year a calendar date may have.
pub const MAX_DATE_YEAR: i32 = 262142;

/// Whether a month of a year is a calendar month that dates can lie in.
pub open spec fn valid_month(year: i32, month: u32) -> bool {
    1 <= month <= 12 && MIN_DATE_YEAR <= year <= MAX_DATE_YEAR
}

/// The month before a calendar month, if it is one too.
pub open spec fn month_before_spec(year: i32, month: u32) -> Option<(i32, u32)> {
    if !valid_month(year, month) {
        None
    } else if month > 1 {
        Some((year, (month - 1) as u32))
    } else if year - 1 >= MIN_DATE_YEAR {
        Some(((year - 1) as i32, 12u32))
    } else {
        None
    }
}

/// Takes one month from the first day of the month with
/// `chrono::NaiveDate::checked_sub_months` and gives the year and month of
/// the result. Trusted: as the crate's source computes it, the month
/// before, or nothing when either month is not a calendar month.
#[verifier::external_body]
pub(crate) fn month_before(year: i32, month: u32) -> (r: Option<(i32, u32)>)
    ensures
        r == month_before_spec(year, month),
{
    chrono::NaiveDate::from_ymd_opt(year, month, 1)
        .and_then(|d| d.checked_sub_months(chrono::Months::new(1)))
        .map(|d| (chrono::Datelike::year(&d), chrono::Datelike::month(&d)))
}

} // verus!
