use crate::calendar::{date_text, days_in_month, is_calendar_date, is_leap_year, MAX_YEAR, MIN_YEAR};
use vstd::prelude::*;

verus! {

/// A calendar date as a mathematical value.
pub struct DateView {
    pub year: int,
    pub month: int,
    pub day: int,
}

impl DateView {
    /// Whether the three numbers name a day of the calendar.
    pub open spec fn is_valid(self) -> bool {
        is_calendar_date(self.year, self.month, self.day)
    }

    /// The date as `YYYY-MM-DD`.
    pub open spec fn text(self) -> Seq<char> {
        date_text(self.year, self.month, self.day)
    }
}

/// A day of the proleptic Gregorian calendar, without a time of day.
#[derive(Debug, Clone, Copy)]
pub struct Date {
    year: i32,
    month: u32,
    day: u32,
}

impl View for Date {
    type V = DateView;

    closed spec fn view(&self) -> DateView {
        DateView { year: self.year as int, month: self.month as int, day: self.day as int }
    }
}

/// Whether `year` has a 29th of February.
fn leap_year(year: i32) -> (r: bool)
    requires
        MIN_YEAR <= year <= MAX_YEAR,
    ensures
        r == is_leap_year(year as int),
{
    // 262400 is a multiple of 400 that makes every year of the range positive.
    let shifted: i32 = year + 262400;
    shifted % 4 == 0 && (shifted % 100 != 0 || shifted % 400 == 0)
}

/// The number of days of a month of `year`.
fn month_length(year: i32, month: u32) -> (r: u32)
    requires
        MIN_YEAR <= year <= MAX_YEAR,
        1 <= month <= 12,
    ensures
        r == days_in_month(year as int, month as int),
{
    if month == 2 {
        if leap_year(year) {
            29
        } else {
            28
        }
    } else if month == 4 || month == 6 || month == 9 || month == 11 {
        30
    } else {
        31
    }
}

/// Asks chrono for the text of a date: `NaiveDate::from_ymd_opt`, which
/// returns a date for every day of the calendar from `MIN_YEAR` to
/// `MAX_YEAR`, then `NaiveDate::format` with `%Y-%m-%d`. The contract
/// claims the text that chrono documents for these three items: the year in
/// four digits from 0 to 9999 and with a sign otherwise, month and day in
/// two digits each, hyphens between them.
#[verifier::external_body]
fn format_date(year: i32, month: u32, day: u32) -> (r: String)
    requires
        is_calendar_date(year as int, month as int, day as int),
    ensures
        r@ == date_text(year as int, month as int, day as int),
{
    chrono::NaiveDate::from_ymd_opt(year, month, day).unwrap().format("%Y-%m-%d").to_string()
}

impl Date {
    #[verifier::type_invariant]
    spec fn well_formed(self) -> bool {
        is_calendar_date(self.year as int, self.month as int, self.day as int)
    }

    /// The date of the given year, month and day, if there is such a day.
    pub fn from_ymd(year: i32, month: u32, day: u32) -> (r: Option<Date>)
        ensures
            r is Some <==> is_calendar_date(year as int, month as int, day as int),
            r is Some ==> r->0@ == (DateView {
                year: year as int,
                month: month as int,
                day: day as int,
            }),
    {
        if year < MIN_YEAR || year > MAX_YEAR || month < 1 || month > 12 || day < 1 {
            return None;
        }
        if day > month_length(year, month) {
            return None;
        }
        Some(Date { year, month, day })
    }

    pub fn year(&self) -> (r: i32)
        ensures
            r == self@.year,
            self@.is_valid(),
    {
        proof {
            use_type_invariant(self);
        }
        self.year
    }

    pub fn month(&self) -> (r: u32)
        ensures
            r == self@.month,
            self@.is_valid(),
    {
        proof {
            use_type_invariant(self);
        }
        self.month
    }

    pub fn day(&self) -> (r: u32)
        ensures
            r == self@.day,
            self@.is_valid(),
    {
        proof {
            use_type_invariant(self);
        }
        self.day
    }

    /// The date as `YYYY-MM-DD`.
    pub fn text(&self) -> (r: String)
        ensures
            r@ == self@.text(),
    {
        proof {
            use_type_invariant(self);
        }
        format_date(self.year, self.month, self.day)
    }
}

} // verus!
