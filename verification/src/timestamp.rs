use crate::calendar::{is_calendar_date, is_time_of_day, rfc3339_text};
use crate::date::{Date, DateView};
use vstd::prelude::*;

verus! {

/// An instant of UTC as a mathematical value: a date and a time of day.
pub struct TimestampView {
    pub date: DateView,
    pub hour: int,
    pub minute: int,
    pub second: int,
    pub nanosecond: int,
}

impl TimestampView {
    /// Whether the date is a day of the calendar and the rest a time of day.
    pub open spec fn is_valid(self) -> bool {
        &&& self.date.is_valid()
        &&& is_time_of_day(self.hour, self.minute, self.second, self.nanosecond)
    }

    /// The instant as RFC 3339 writes it, with the offset `+00:00`.
    pub open spec fn text(self) -> Seq<char> {
        rfc3339_text(
            self.date.year,
            self.date.month,
            self.date.day,
            self.hour,
            self.minute,
            self.second,
            self.nanosecond,
        )
    }
}

/// An instant of UTC, to the nanosecond.
#[derive(Debug, Clone, Copy)]
pub struct Timestamp {
    date: Date,
    hour: u32,
    minute: u32,
    second: u32,
    nanosecond: u32,
}

impl View for Timestamp {
    type V = TimestampView;

    closed spec fn view(&self) -> TimestampView {
        TimestampView {
            date: self.date@,
            hour: self.hour as int,
            minute: self.minute as int,
            second: self.second as int,
            nanosecond: self.nanosecond as int,
        }
    }
}

/// Asks chrono for the RFC 3339 text of an instant of UTC:
/// `NaiveDate::from_ymd_opt` and `NaiveDate::and_hms_nano_opt`, which
/// return a value for every day of the calendar and every time of day, then
/// `NaiveDateTime::and_utc` and `DateTime::to_rfc3339`. The contract claims
/// the text that chrono writes: the date, `T`, the time with the fewest of
/// three, six or nine fraction digits that lose nothing, a leap second as
/// second 60, and the offset `+00:00`.
#[verifier::external_body]
fn format_utc(
    year: i32,
    month: u32,
    day: u32,
    hour: u32,
    minute: u32,
    second: u32,
    nanosecond: u32,
) -> (r: String)
    requires
        is_calendar_date(year as int, month as int, day as int),
        is_time_of_day(hour as int, minute as int, second as int, nanosecond as int),
    ensures
        r@ == rfc3339_text(
            year as int,
            month as int,
            day as int,
            hour as int,
            minute as int,
            second as int,
            nanosecond as int,
        ),
{
    let date = chrono::NaiveDate::from_ymd_opt(year, month, day).unwrap();
    date.and_hms_nano_opt(hour, minute, second, nanosecond).unwrap().and_utc().to_rfc3339()
}

impl Timestamp {
    #[verifier::type_invariant]
    spec fn well_formed(self) -> bool {
        is_time_of_day(
            self.hour as int,
            self.minute as int,
            self.second as int,
            self.nanosecond as int,
        )
    }

    /// The instant at the given time of the given day of UTC, if there is
    /// such a time of day. A nanosecond of a thousand million or more stands
    /// for a leap second and is accepted after second 59 only.
    pub fn new(date: Date, hour: u32, minute: u32, second: u32, nanosecond: u32) -> (r: Option<
        Timestamp,
    >)
        ensures
            r is Some <==> is_time_of_day(
                hour as int,
                minute as int,
                second as int,
                nanosecond as int,
            ),
            r is Some ==> r->0@ == (TimestampView {
                date: date@,
                hour: hour as int,
                minute: minute as int,
                second: second as int,
                nanosecond: nanosecond as int,
            }),
    {
        if hour >= 24 || minute >= 60 || second >= 60 || nanosecond >= 2_000_000_000 {
            return None;
        }
        if nanosecond >= 1_000_000_000 && second != 59 {
            return None;
        }
        Some(Timestamp { date, hour, minute, second, nanosecond })
    }

    pub fn date(&self) -> (r: Date)
        ensures
            r@ == self@.date,
    {
        self.date
    }

    pub fn hour(&self) -> (r: u32)
        ensures
            r == self@.hour,
    {
        self.hour
    }

    pub fn minute(&self) -> (r: u32)
        ensures
            r == self@.minute,
    {
        self.minute
    }

    pub fn second(&self) -> (r: u32)
        ensures
            r == self@.second,
    {
        self.second
    }

    pub fn nanosecond(&self) -> (r: u32)
        ensures
            r == self@.nanosecond,
    {
        self.nanosecond
    }

    /// The instant as RFC 3339 writes it, with the offset `+00:00`.
    pub fn text(&self) -> (r: String)
        ensures
            r@ == self@.text(),
            self@.is_valid(),
    {
        proof {
            use_type_invariant(self);
        }
        let year: i32 = self.date.year();
        let month: u32 = self.date.month();
        let day: u32 = self.date.day();
        format_utc(year, month, day, self.hour, self.minute, self.second, self.nanosecond)
    }
}

} // verus!
