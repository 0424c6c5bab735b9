//! Calendar dates and date-times, held as plain numbers.
//!
//! A date is a day that `chrono::NaiveDate` knows, kept as its year, month
//! and day so that the ledger's rules can compare it with a term's window.

use vstd::prelude::*;

verus! {

/// A day named by year, month and day of the month.
pub struct Day {
    pub year: int,
    pub month: int,
    pub day: int,
}

impl Day {
    /// `self` is strictly earlier than `other`.
    pub open spec fn precedes(self, other: Day) -> bool {
        self.year < other.year || (self.year == other.year && (self.month < other.month || (
        self.month == other.month && self.day < other.day)))
    }

    /// `self` is `other` or earlier.
    pub open spec fn at_most(self, other: Day) -> bool {
        self == other || self.precedes(other)
    }
}

/// Whether `chrono::NaiveDate::from_ymd_opt` knows a day of this year, month
/// and day of the month.
pub uninterp spec fn is_calendar_day(year: int, month: int, day: int) -> bool;

/// Asks `chrono::NaiveDate::from_ymd_opt` whether the calendar has the day.
///
/// Trusted: the answer is the named one. `from_ymd_opt` gives `None` for a day
/// that does not exist, for a month or day that is no such number, and for a
/// year beyond its range; it does not panic.
#[verifier::external_body]
fn calendar_has(year: i32, month: u32, day: u32) -> (known: bool)
    ensures
        known == is_calendar_day(year as int, month as int, day as int),
{
    chrono::NaiveDate::from_ymd_opt(year, month, day).is_some()
}

/// A calendar date.
///
/// Dates are ordered chronologically: by year, then month, then day.
#[derive(Debug, Clone, Copy, PartialEq, Eq, Structural, PartialOrd, Ord, Hash)]
pub struct Date {
    year: i32,
    month: u32,
    day: u32,
}

impl View for Date {
    type V = Day;

    closed spec fn view(&self) -> Day {
        Day { year: self.year as int, month: self.month as int, day: self.day as int }
    }
}

impl Date {
    #[verifier::type_invariant]
    spec fn on_the_calendar(self) -> bool {
        is_calendar_day(self.year as int, self.month as int, self.day as int)
    }

    /// The date of the given year, month and day, or `None` where the calendar
    /// has no such day.
    pub fn from_ymd_opt(year: i32, month: u32, day: u32) -> (r: Option<Date>)
        ensures
            r is Some <==> is_calendar_day(year as int, month as int, day as int),
            r matches Some(d) ==> d@ == (Day {
                year: year as int,
                month: month as int,
                day: day as int,
            }),
    {
        if calendar_has(year, month, day) {
            Some(Date { year, month, day })
        } else {
            None
        }
    }

    pub fn year(&self) -> (year: i32)
        ensures
            year == self@.year,
            is_calendar_day(self@.year, self@.month, self@.day),
    {
        proof {
            use_type_invariant(self);
        }
        self.year
    }

    pub fn month(&self) -> (month: u32)
        ensures
            month == self@.month,
            is_calendar_day(self@.year, self@.month, self@.day),
    {
        proof {
            use_type_invariant(self);
        }
        self.month
    }

    pub fn day(&self) -> (day: u32)
        ensures
            day == self@.day,
            is_calendar_day(self@.year, self@.month, self@.day),
    {
        proof {
            use_type_invariant(self);
        }
        self.day
    }

    /// Whether `self` is strictly earlier than `other`.
    pub fn is_before(&self, other: &Date) -> (b: bool)
        ensures
            b == self@.precedes(other@),
    {
        self.year < other.year || (self.year == other.year && (self.month < other.month || (
        self.month == other.month && self.day < other.day)))
    }

    /// Whether `self` is strictly later than `other`.
    pub fn is_after(&self, other: &Date) -> (b: bool)
        ensures
            b == other@.precedes(self@),
    {
        other.is_before(self)
    }
}

/// A date and a time of day.
pub struct Moment {
    pub day: Day,
    pub second_of_day: int,
    pub nanosecond: int,
}

/// Whether a second of the day and a nanosecond within it name a time of day.
/// The nanosecond may run into a second thousand million, for a leap second,
/// but only in the last second of a minute.
pub open spec fn is_time_of_day(second_of_day: int, nanosecond: int) -> bool {
    &&& 0 <= second_of_day < 86_400
    &&& 0 <= nanosecond < 2_000_000_000
    &&& nanosecond >= 1_000_000_000 ==> second_of_day % 60 == 59
}

/// A date with a time of day: seconds since midnight and nanoseconds within
/// the second. Only the date takes part in the ledger's rules; the time of day
/// is carried along unchanged.
#[derive(Debug, Clone, Copy, PartialEq, Eq, Structural, PartialOrd, Ord, Hash)]
pub struct DateTime {
    date: Date,
    second_of_day: u32,
    nanosecond: u32,
}

impl View for DateTime {
    type V = Moment;

    closed spec fn view(&self) -> Moment {
        Moment {
            day: self.date@,
            second_of_day: self.second_of_day as int,
            nanosecond: self.nanosecond as int,
        }
    }
}

impl DateTime {
    #[verifier::type_invariant]
    spec fn at_a_time_of_day(self) -> bool {
        is_time_of_day(self.second_of_day as int, self.nanosecond as int)
    }

    /// The given time on the given date, or `None` where the numbers name no
    /// time of day.
    pub fn new(date: Date, second_of_day: u32, nanosecond: u32) -> (r: Option<DateTime>)
        ensures
            r is Some <==> is_time_of_day(second_of_day as int, nanosecond as int),
            r matches Some(t) ==> t@ == (Moment {
                day: date@,
                second_of_day: second_of_day as int,
                nanosecond: nanosecond as int,
            }),
    {
        if second_of_day >= 86_400 || nanosecond >= 2_000_000_000 || (nanosecond >= 1_000_000_000
            && second_of_day % 60 != 59) {
            None
        } else {
            Some(DateTime { date, second_of_day, nanosecond })
        }
    }

    /// The calendar date of this date-time.
    pub fn date(&self) -> (d: Date)
        ensures
            d@ == self@.day,
    {
        self.date
    }

    pub fn second_of_day(&self) -> (s: u32)
        ensures
            s == self@.second_of_day,
            is_time_of_day(self@.second_of_day, self@.nanosecond),
    {
        proof {
            use_type_invariant(self);
        }
        self.second_of_day
    }

    pub fn nanosecond(&self) -> (n: u32)
        ensures
            n == self@.nanosecond,
            is_time_of_day(self@.second_of_day, self@.nanosecond),
    {
        proof {
            use_type_invariant(self);
        }
        self.nanosecond
    }
}

} // verus!
