use crate::digits::{padded_decimal, zero_padded};
use vstd::prelude::*;

verus! {

/// The first year that a date can hold.
pub const MIN_YEAR: i32 = -262143;

/// The last year that a date can hold.
pub const MAX_YEAR: i32 = 262142;

/// Whether a year of the proleptic Gregorian calendar has a 29th of February.
pub open spec fn is_leap_year(year: int) -> bool {
    year % 4 == 0 && (year % 100 != 0 || year % 400 == 0)
}

/// The number of days of a month, for a month from 1 to 12.
pub open spec fn days_in_month(year: int, month: int) -> int {
    if month == 2 {
        if is_leap_year(year) {
            29
        } else {
            28
        }
    } else if month == 4 || month == 6 || month == 9 || month == 11 {
        30
    } else {
        31
    }
}

/// Whether year, month and day name a day of the proleptic Gregorian
/// calendar within the years that a date can hold.
pub open spec fn is_calendar_date(year: int, month: int, day: int) -> bool {
    &&& MIN_YEAR <= year <= MAX_YEAR
    &&& 1 <= month <= 12
    &&& 1 <= day <= days_in_month(year, month)
}

/// Whether hour, minute, second and nanosecond name a time of day. A
/// nanosecond of a thousand million or more marks a leap second, which can
/// only follow second 59.
pub open spec fn is_time_of_day(hour: int, minute: int, second: int, nanosecond: int) -> bool {
    &&& 0 <= hour < 24
    &&& 0 <= minute < 60
    &&& 0 <= second < 60
    &&& 0 <= nanosecond < 2_000_000_000
    &&& (nanosecond >= 1_000_000_000 ==> second == 59)
}

/// A year as ISO 8601 writes it: four digits from 0 to 9999, otherwise a
/// sign and at least four digits.
pub open spec fn year_text(year: int) -> Seq<char> {
    if 0 <= year <= 9999 {
        zero_padded(year as nat, 4)
    } else if year > 9999 {
        seq!['+'] + padded_decimal(year as nat, 4)
    } else {
        seq!['-'] + padded_decimal((-year) as nat, 4)
    }
}

/// A date as `YYYY-MM-DD`.
pub open spec fn date_text(year: int, month: int, day: int) -> Seq<char> {
    year_text(year) + seq!['-'] + zero_padded(month as nat, 2) + seq!['-'] + zero_padded(
        day as nat,
        2,
    )
}

/// The fraction of a second: nothing for a whole second, otherwise a point
/// and three, six or nine digits, the fewest that lose nothing.
pub open spec fn fraction_text(nanosecond: int) -> Seq<char> {
    if nanosecond == 0 {
        Seq::empty()
    } else if nanosecond % 1_000_000 == 0 {
        seq!['.'] + zero_padded((nanosecond / 1_000_000) as nat, 3)
    } else if nanosecond % 1_000 == 0 {
        seq!['.'] + zero_padded((nanosecond / 1_000) as nat, 6)
    } else {
        seq!['.'] + zero_padded(nanosecond as nat, 9)
    }
}

/// A time of day as `HH:MM:SS` and the fraction of the second. A leap
/// second is written as second 60.
pub open spec fn time_text(hour: int, minute: int, second: int, nanosecond: int) -> Seq<char> {
    let (shown_second, shown_nanosecond) = if nanosecond >= 1_000_000_000 {
        (second + 1, nanosecond - 1_000_000_000)
    } else {
        (second, nanosecond)
    };
    zero_padded(hour as nat, 2) + seq![':'] + zero_padded(minute as nat, 2) + seq![':']
        + zero_padded(shown_second as nat, 2) + fraction_text(shown_nanosecond)
}

/// An instant of UTC as RFC 3339 writes it, with the offset `+00:00`.
pub open spec fn rfc3339_text(
    year: int,
    month: int,
    day: int,
    hour: int,
    minute: int,
    second: int,
    nanosecond: int,
) -> Seq<char> {
    date_text(year, month, day) + seq!['T'] + time_text(hour, minute, second, nanosecond)
        + seq!['+', '0', '0', ':', '0', '0']
}

} // verus!
