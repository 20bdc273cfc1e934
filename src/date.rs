//! Calendar dates with year, month and day resolution.
use vstd::prelude::*;

verus! {

/// Earliest year that a date may carry.
pub const MIN_YEAR: i32 = -262143;

/// Latest year that a date may carry.
pub const MAX_YEAR: i32 = 262142;

/// Leap years of the proleptic Gregorian calendar.
pub open spec fn is_leap_year(year: int) -> bool {
    year % 4 == 0 && (year % 100 != 0 || year % 400 == 0)
}

/// Number of days in `month` (1 to 12) of `year`.
pub open spec fn days_in_month(year: int, month: int) -> int {
    if month == 2 {
        if is_leap_year(year) {
            29
        } else {
            28
        }
    } else if month == 4 || month == 6 || month == 9 || month == 11 {
        30
    } else {
        31
    }
}

/// The triple names an existing day of the calendar, within the year range.
pub open spec fn is_valid_ymd(year: int, month: int, day: int) -> bool {
    MIN_YEAR <= year <= MAX_YEAR && 1 <= month <= 12 && 1 <= day <= days_in_month(year, month)
}

/// Relies on `chrono::NaiveDate::from_ymd_opt`: it returns `Some` exactly for an
/// existing day of the proleptic Gregorian calendar whose year lies within
/// chrono's range (`MIN_YEAR ..= MAX_YEAR` above).
#[verifier::external_body]
fn calendar_day_exists(year: i32, month: u32, day: u32) -> (r: bool)
    ensures
        r == is_valid_ymd(year as int, month as int, day as int),
{
    chrono::NaiveDate::from_ymd_opt(year, month, day).is_some()
}

/// Abstract value of a date.
pub struct YearMonthDay {
    pub year: int,
    pub month: int,
    pub day: int,
}

/// A calendar date (year, month, day) without a time of day.
#[derive(Clone, Copy, Debug, PartialEq, Eq, Structural)]
pub struct Date {
    year: i32,
    month: u32,
    day: u32,
}

impl View for Date {
    type V = YearMonthDay;

    closed spec fn view(&self) -> YearMonthDay {
        YearMonthDay { year: self.year as int, month: self.month as int, day: self.day as int }
    }
}

impl Date {
    #[verifier::type_invariant]
    spec fn inv(self) -> bool {
        is_valid_ymd(self.year as int, self.month as int, self.day as int)
    }

    /// The date `year-month-day`, or `None` where no such day exists.
    pub fn from_ymd_opt(year: i32, month: u32, day: u32) -> (r: Option<Date>)
        ensures
            r is Some <==> is_valid_ymd(year as int, month as int, day as int),
            r matches Some(d) ==> d@ == (YearMonthDay {
                year: year as int,
                month: month as int,
                day: day as int,
            }),
    {
        if calendar_day_exists(year, month, day) {
            Some(Date { year, month, day })
        } else {
            None
        }
    }

    pub fn year(&self) -> (r: i32)
        ensures
            r as int == self@.year,
            is_valid_ymd(self@.year, self@.month, self@.day),
    {
        proof {
            use_type_invariant(self);
        }
        self.year
    }

    pub fn month(&self) -> (r: u32)
        ensures
            r as int == self@.month,
            is_valid_ymd(self@.year, self@.month, self@.day),
    {
        proof {
            use_type_invariant(self);
        }
        self.month
    }

    pub fn day(&self) -> (r: u32)
        ensures
            r as int == self@.day,
            is_valid_ymd(self@.year, self@.month, self@.day),
    {
        proof {
            use_type_invariant(self);
        }
        self.day
    }

    /// Two dates are equal exactly when their year, month and day agree.
    pub proof fn lemma_view_eq(a: Date, b: Date)
        ensures
            a == b <==> a@ == b@,
    {
    }
}

} // verus!
