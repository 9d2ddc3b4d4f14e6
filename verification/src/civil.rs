//! Days of the Gregorian calendar by year, month and day, over the years
//! that `chrono::NaiveDate` can hold, with what `chrono` tells of a day:
//! its day of the week and its ISO week.

use vstd::prelude::*;

use crate::date::{days_before_month, month_of_number, spec_days_of_month, Day, Month};
use crate::days_of_month;

verus! {

/// The first year a `chrono::NaiveDate` can hold.
pub const MIN_YEAR: i32 = -262143;

/// The last year a `chrono::NaiveDate` can hold.
pub const MAX_YEAR: i32 = 262142;

/// A day of the Gregorian calendar: its year, the number of its month from
/// 1, and its day of the month from 1.
#[derive(Clone, Copy, Debug, PartialEq, Eq, PartialOrd, Ord, Structural)]
pub struct CivilDate {
    pub year: i32,
    pub month: u32,
    pub day: u32,
}

/// The number, from 0 for Sunday, of the day of the week on which a day
/// falls: what `chrono` computes for it.
pub uninterp spec fn weekday_number(year: int, month: int, day: int) -> int;

/// The number of the ISO week in which a day falls: what `chrono` computes
/// for it.
pub uninterp spec fn iso_week_number(year: int, month: int, day: int) -> int;

/// Whether the calendar has the day, in a year that `chrono` can hold.
pub open spec fn civil_exists(year: int, month: int, day: int) -> bool {
    &&& MIN_YEAR <= year <= MAX_YEAR
    &&& 1 <= month <= 12
    &&& 1 <= day <= spec_days_of_month(year, month_of_number(month))
}

/// `chrono::NaiveDate::from_ymd_opt`, then `chrono::Datelike::weekday` and
/// `chrono::Weekday::num_days_from_sunday`. Claimed: there is a result
/// just when the calendar has the day in a year from -262143 to 262142;
/// the result is below 7; and the same day always gives the same result,
/// named `weekday_number`.
#[verifier::external_body]
fn chrono_weekday(year: i32, month: u32, day: u32) -> (weekday: Option<u8>)
    ensures
        weekday is Some <==> civil_exists(year as int, month as int, day as int),
        weekday matches Some(number) ==> number < 7 && number as int == weekday_number(
            year as int,
            month as int,
            day as int,
        ),
{
    match chrono::NaiveDate::from_ymd_opt(year, month, day) {
        Some(date) => Some(chrono::Datelike::weekday(&date).num_days_from_sunday() as u8),
        None => None,
    }
}

/// `chrono::NaiveDate::from_ymd_opt`, then `chrono::Datelike::iso_week` and
/// `chrono::IsoWeek::week`. Claimed: there is a result just when the
/// calendar has the day in a year from -262143 to 262142; the result lies
/// from 1 to 53; and the same day always gives the same result, named
/// `iso_week_number`.
#[verifier::external_body]
fn chrono_iso_week(year: i32, month: u32, day: u32) -> (week: Option<u32>)
    ensures
        week is Some <==> civil_exists(year as int, month as int, day as int),
        week matches Some(number) ==> 1 <= number <= 53 && number as int == iso_week_number(
            year as int,
            month as int,
            day as int,
        ),
{
    match chrono::NaiveDate::from_ymd_opt(year, month, day) {
        Some(date) => Some(chrono::Datelike::iso_week(&date).week()),
        None => None,
    }
}

impl CivilDate {
    /// Whether the calendar has the day, in a year that `chrono` can hold.
    pub open spec fn spec_exists(self) -> bool {
        civil_exists(self.year as int, self.month as int, self.day as int)
    }

    /// Days of the year that precede the day.
    pub open spec fn spec_ordinal0(self) -> int {
        days_before_month(self.year as int, self.month as int) + self.day - 1
    }

    /// The day after: the next day of the month, else the first day of the
    /// next month, else the first day of the next year. The last day of
    /// the last year has none.
    pub open spec fn spec_next(self) -> Option<CivilDate> {
        if self.day < spec_days_of_month(self.year as int, month_of_number(self.month as int)) {
            Some(CivilDate { year: self.year, month: self.month, day: (self.day + 1) as u32 })
        } else if self.month < 12 {
            Some(CivilDate { year: self.year, month: (self.month + 1) as u32, day: 1 })
        } else if self.year < MAX_YEAR {
            Some(CivilDate { year: (self.year + 1) as i32, month: 1, day: 1 })
        } else {
            None
        }
    }

    /// Whether the calendar has the day, in a year that `chrono` can hold.
    pub fn is_real(&self) -> (found: bool)
        ensures
            found == self.spec_exists(),
    {
        if self.year < MIN_YEAR || self.year > MAX_YEAR || self.month > 12 {
            return false;
        }
        match Month::from_number(self.month as u8) {
            Some(month) => 1 <= self.day && self.day <= days_of_month(self.year, month) as u32,
            None => false,
        }
    }

    /// Days of the year that precede the day.
    pub fn ordinal0(&self) -> (ordinal: u32)
        requires
            self.spec_exists(),
        ensures
            ordinal as int == self.spec_ordinal0(),
            ordinal < crate::spec_days_of_year(self.year as int),
    {
        proof {
            crate::date::lemma_days_before_month_values(self.year as int);
        }
        let mut days: u32 = 0;
        let mut number: u8 = 1;
        while (number as u32) < self.month
            invariant
                1 <= number <= self.month <= 12,
                days as int == days_before_month(self.year as int, number as int),
                days <= 31 * (number - 1),
            decreases self.month - number,
        {
            match Month::from_number(number) {
                Some(month) => {
                    days = days + days_of_month(self.year, month) as u32;
                },
                None => {},
            }
            number = number + 1;
        }
        days + self.day - 1
    }

    /// The day after, if `chrono` can hold it.
    pub fn next(&self) -> (next: Option<CivilDate>)
        requires
            self.spec_exists(),
        ensures
            next == self.spec_next(),
            next matches Some(date) ==> date.spec_exists(),
    {
        let length = match Month::from_number(self.month as u8) {
            Some(month) => days_of_month(self.year, month) as u32,
            None => 31,
        };
        if self.day < length {
            Some(CivilDate { year: self.year, month: self.month, day: self.day + 1 })
        } else if self.month < 12 {
            Some(CivilDate { year: self.year, month: self.month + 1, day: 1 })
        } else if self.year < MAX_YEAR {
            Some(CivilDate { year: self.year + 1, month: 1, day: 1 })
        } else {
            None
        }
    }

    /// The day of the week, as `chrono` computes it; nothing for a day
    /// that does not exist.
    pub fn weekday(&self) -> (weekday: Option<Day>)
        ensures
            weekday is Some <==> self.spec_exists(),
            weekday matches Some(day) ==> day.spec_number() == weekday_number(
                self.year as int,
                self.month as int,
                self.day as int,
            ),
    {
        match chrono_weekday(self.year, self.month, self.day) {
            Some(number) => Day::from_number(number),
            None => None,
        }
    }

    /// The number of the ISO week, as `chrono` computes it; nothing for a
    /// day that does not exist.
    pub fn iso_week(&self) -> (week: Option<u32>)
        ensures
            week is Some <==> self.spec_exists(),
            week matches Some(number) ==> 1 <= number <= 53 && number as int == iso_week_number(
                self.year as int,
                self.month as int,
                self.day as int,
            ),
    {
        chrono_iso_week(self.year, self.month, self.day)
    }
}

} // verus!
