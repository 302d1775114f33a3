//! Calendar dates of the proleptic Gregorian calendar, as plain numbers.

use vstd::prelude::*;
use vstd::string::StringExecFns;

verus! {

/// Whether `year` is a leap year.
pub open spec fn is_leap_year(year: int) -> bool {
    year % 4 == 0 && (year % 100 != 0 || year % 400 == 0)
}

/// The number of days that month `month` has in `year`.
pub open spec fn days_in_month(year: int, month: int) -> int {
    if month == 2 {
        if is_leap_year(year) {
            29
        } else {
            28
        }
    } else if month == 4 || month == 6 || month == 9 || month == 11 {
        30
    } else {
        31
    }
}

/// Whether the three numbers name a day of the calendar, in a year that has
/// at most four digits.
pub open spec fn is_calendar_date(year: int, month: int, day: int) -> bool {
    &&& -9999 <= year <= 9999
    &&& 1 <= month <= 12
    &&& 1 <= day <= days_in_month(year, month)
}

/// The Julian day number of a calendar date: the count of days that numbers
/// each day of the calendar in turn.
pub uninterp spec fn julian_day(year: int, month: int, day: int) -> i32;

/// The name of the component that is out of its range in numbers that name
/// no day of the calendar: the month, or else the year, or else the day.
pub open spec fn out_of_range(year: int, month: int) -> Seq<char> {
    if !(1 <= month <= 12) {
        "month"@
    } else if !(-9999 <= year <= 9999) {
        "year"@
    } else {
        "day"@
    }
}

/// `time::Date::from_calendar_date`: whether the three numbers name a day of
/// the calendar. Where they do not, the name of the component that is out of
/// range comes back: the year, or else the day.
#[verifier::external_body]
fn check_calendar_date(year: i32, month: u8, day: u8) -> (outcome: Result<(), String>)
    requires
        1 <= month <= 12,
    ensures
        outcome is Ok <==> is_calendar_date(year as int, month as int, day as int),
        outcome matches Err(name) ==> name@ == out_of_range(year as int, month as int),
{
    let month = time::Month::try_from(month).expect("month is in the range of 1 to 12");
    time::Date::from_calendar_date(year, month, day).map(|_date| ()).map_err(
        |error| error.name().to_owned(),
    )
}

/// `time::Date::to_julian_day`, on the date that the three numbers name.
#[verifier::external_body]
fn julian_day_of(year: i32, month: u8, day: u8) -> (number: i32)
    requires
        is_calendar_date(year as int, month as int, day as int),
    ensures
        number == julian_day(year as int, month as int, day as int),
{
    let month = time::Month::try_from(month).expect("month is in the range of 1 to 12");
    time::Date::from_calendar_date(year, month, day).expect("a day of the calendar").to_julian_day()
}

/// A date's component that is out of its range.
#[derive(Debug, Clone, PartialEq, Eq)]
pub struct ComponentRange {
    /// The name of the component.
    pub name: String,
}

impl ComponentRange {
    /// The error in words.
    pub open spec fn message_spec(&self) -> Seq<char> {
        self.name@ + " is out of its range"@
    }

    /// The error in words.
    pub fn message(&self) -> (text: String)
        ensures
            text@ == self.message_spec(),
    {
        self.name.clone().concat(" is out of its range")
    }
}

/// A day of the calendar.
#[derive(Debug, Clone, Copy, PartialEq, Eq)]
pub struct CalendarDate {
    year: i32,
    month: u8,
    day: u8,
}

impl CalendarDate {
    #[verifier::type_invariant]
    spec fn is_valid(self) -> bool {
        is_calendar_date(self.year as int, self.month as int, self.day as int)
    }

    /// The date's year.
    pub closed spec fn year_spec(&self) -> i32 {
        self.year
    }

    /// The date's month, from 1 to 12.
    pub closed spec fn month_spec(&self) -> u8 {
        self.month
    }

    /// The date's day of the month, from 1.
    pub closed spec fn day_spec(&self) -> u8 {
        self.day
    }

    /// The date that the three numbers name, if they name one.
    pub fn from_calendar_date(year: i32, month: u8, day: u8) -> (outcome: Result<
        CalendarDate,
        ComponentRange,
    >)
        ensures
            outcome is Ok <==> is_calendar_date(year as int, month as int, day as int),
            outcome matches Ok(date) ==> date.year_spec() == year && date.month_spec() == month
                && date.day_spec() == day,
            outcome matches Err(error) ==> error.name@ == out_of_range(year as int, month as int),
    {
        if month < 1 || month > 12 {
            return Err(ComponentRange { name: "month".to_owned() });
        }
        match check_calendar_date(year, month, day) {
            Ok(()) => Ok(CalendarDate { year, month, day }),
            Err(name) => Err(ComponentRange { name }),
        }
    }

    /// The date's year.
    pub fn year(&self) -> (year: i32)
        ensures
            year == self.year_spec(),
            -9999 <= year <= 9999,
    {
        proof {
            use_type_invariant(self);
        }
        self.year
    }

    /// The date's month, from 1 to 12.
    pub fn month(&self) -> (month: u8)
        ensures
            month == self.month_spec(),
            1 <= month <= 12,
    {
        proof {
            use_type_invariant(self);
        }
        self.month
    }

    /// The date's day of the month.
    pub fn day(&self) -> (day: u8)
        ensures
            day == self.day_spec(),
            1 <= day <= days_in_month(self.year_spec() as int, self.month_spec() as int),
    {
        proof {
            use_type_invariant(self);
        }
        self.day
    }

    /// The date's Julian day number.
    pub fn to_julian_day(&self) -> (number: i32)
        ensures
            number == julian_day(
                self.year_spec() as int,
                self.month_spec() as int,
                self.day_spec() as int,
            ),
    {
        proof {
            use_type_invariant(self);
        }
        julian_day_of(self.year, self.month, self.day)
    }
}

} // verus!
