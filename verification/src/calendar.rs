use vstd::prelude::*;

verus! {

/// The Gregorian leap-year rule: divisible by 4 and not by 100, unless also
/// divisible by 400.
pub open spec fn spec_is_leap_year(year: int) -> bool {
    (year % 4 == 0 && year % 100 != 0) || year % 400 == 0
}

/// Length of `month` (1 to 12) in `year`; February has 29 days in a leap year.
pub open spec fn spec_days_in_month(year: int, month: int) -> int {
    if month == 2 {
        if spec_is_leap_year(year) {
            29
        } else {
            28
        }
    } else if month == 4 || month == 6 || month == 9 || month == 11 {
        30
    } else {
        31
    }
}

/// Days contributed by the whole years from 1970 up to but not including
/// `year`: 366 for each elapsed leap year, 365 otherwise.
pub open spec fn spec_days_from_years(year: int) -> int
    decreases year,
{
    if year <= 1970 {
        0
    } else {
        spec_days_from_years(year - 1) + if spec_is_leap_year(year - 1) {
            366int
        } else {
            365int
        }
    }
}

/// Days contributed by the fully elapsed months of `year` before `month`.
pub open spec fn spec_days_from_months(year: int, month: int) -> int
    decreases month,
{
    if month <= 1 {
        0
    } else {
        spec_days_from_months(year, month - 1) + spec_days_in_month(year, month - 1)
    }
}

/// Whole days between 1970-01-01 and the civil date (year, month, day).
pub open spec fn spec_civil_days(year: int, month: int, day: int) -> int {
    spec_days_from_years(year) + spec_days_from_months(year, month) + (day - 1)
}

/// Signed microseconds between the epoch instant 1970-01-01T00:00:00.000000
/// and the given civil fields.
pub open spec fn spec_civil_to_epoch_micros(
    year: int,
    month: int,
    day: int,
    hour: int,
    minute: int,
    second: int,
    microsecond: int,
) -> int {
    spec_civil_days(year, month, day) * 86_400_000_000 + hour * 3_600_000_000
        + minute * 60_000_000 + second * 1_000_000 + microsecond
}

/// Leap-year test on a non-negative year.
pub fn is_leap_year(year: i32) -> (r: bool)
    requires
        year >= 0,
    ensures
        r == spec_is_leap_year(year as int),
{
    let y: u32 = year as u32;
    (y % 4 == 0 && y % 100 != 0) || y % 400 == 0
}

/// Length of `month` in `year` as a day count.
pub fn days_in_month(year: i32, month: u32) -> (r: i64)
    requires
        year >= 0,
        1 <= month <= 12,
    ensures
        r == spec_days_in_month(year as int, month as int),
{
    if month == 2 {
        if is_leap_year(year) {
            29
        } else {
            28
        }
    } else if month == 4 || month == 6 || month == 9 || month == 11 {
        30
    } else {
        31
    }
}

/// Convert civil date and time fields to signed microseconds since the epoch
/// instant 1970-01-01T00:00:00.000000, by pure integer arithmetic: whole
/// elapsed years are summed as 365 or 366 days each, elapsed months of the
/// target year by the month-length table, then the day, hour, minute, second
/// and microsecond contributions are added at their fixed scales.
///
/// The supported domain starts at the epoch year; fields are bounded so that
/// the sum stays within a signed 64-bit result.
pub fn civil_to_epoch_micros(
    year: i32,
    month: u32,
    day: u32,
    hour: u32,
    minute: u32,
    second: u32,
    microsecond: i64,
) -> (r: i64)
    requires
        1970 <= year <= 9999,
        1 <= month <= 12,
        1 <= day <= 31,
        hour <= 23,
        minute <= 59,
        second <= 59,
        0 <= microsecond <= 999_999,
    ensures
        r == spec_civil_to_epoch_micros(
            year as int,
            month as int,
            day as int,
            hour as int,
            minute as int,
            second as int,
            microsecond as int,
        ),
{
    let mut days: i64 = 0;
    let mut y: i32 = 1970;
    while y < year
        invariant
            1970 <= y <= year <= 9999,
            days == spec_days_from_years(y as int),
            0 <= days <= 366 * (y - 1970),
        decreases year - y,
    {
        if is_leap_year(y) {
            days = days + 366;
        } else {
            days = days + 365;
        }
        y = y + 1;
    }
    let mut m: u32 = 1;
    while m < month
        invariant
            1 <= m <= month <= 12,
            days == spec_days_from_years(year as int) + spec_days_from_months(
                year as int,
                m as int,
            ),
            0 <= days <= 366 * (year - 1970) + 31 * (m - 1),
        decreases month - m,
    {
        days = days + days_in_month(year, m);
        m = m + 1;
    }
    days = days + (day as i64 - 1);
    days * 86_400_000_000 + (hour as i64) * 3_600_000_000 + (minute as i64) * 60_000_000 + (
    second as i64) * 1_000_000 + microsecond
}

} // verus!
