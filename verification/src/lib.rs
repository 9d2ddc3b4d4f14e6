//! Conversion between the Gregorian calendar and the Chinese lunisolar
//! calendar for the years 1900 to 2100, and the solar terms of those years;
//! with them, the calendar of a month laid out for a terminal.
//!
//! The conversions read three tables (`data`): a packed word for each year
//! that tells its leap month and the length of each month, the day of the
//! year on which each Chinese year begins, and the days of the solar terms.
//! `year_data` reads a packed word, `tables` and `term_table` read the
//! tables and prove what holds of every row, `chinese_date` and
//! `solar_term` convert, and `conversion_laws` states what the conversions
//! guarantee.

pub mod calendar;
pub mod chinese_date;
pub mod civil;
pub mod cli_calendar;
pub mod conversion_laws;
pub mod data;
pub mod date;
pub mod festivals;
pub mod iter;
pub mod language;
pub mod settings;
pub mod solar_term;
pub mod tables;
pub mod term_table;
pub mod year_data;

use vstd::prelude::*;

pub use crate::chinese_date::ChineseDate;
pub use crate::solar_term::SolarTerm;

use crate::date::{spec_days_of_month, Day, Month};

verus! {

/// Whether `year` is a leap year of the proleptic Gregorian calendar.
pub open spec fn spec_is_leap_year(year: int) -> bool {
    year % 4 == 0 && (year % 100 != 0 || year % 400 == 0)
}

/// Number of days of the Gregorian year `year`.
pub open spec fn spec_days_of_year(year: int) -> int {
    if spec_is_leap_year(year) {
        366
    } else {
        365
    }
}

/// Whether `year` is a leap year of the proleptic Gregorian calendar.
pub fn is_leap_year(year: i32) -> (leap: bool)
    ensures
        leap == spec_is_leap_year(year as int),
{
    year % 4 == 0 && (year % 100 != 0 || year % 400 == 0)
}

/// Number of days of the Gregorian year `year`.
pub fn days_of_year(year: i32) -> (days: u16)
    ensures
        days as int == spec_days_of_year(year as int),
{
    if is_leap_year(year) {
        366
    } else {
        365
    }
}

/// Whether a day of the week belongs to the weekend.
pub fn is_weekend(weekday: Day) -> (weekend: bool)
    ensures
        weekend == (weekday == Day::Sunday || weekday == Day::Saturday),
{
    match weekday {
        Day::Sunday => true,
        Day::Saturday => true,
        _ => false,
    }
}

/// Number of days of month `month` of the Gregorian year `year`.
pub fn days_of_month(year: i32, month: Month) -> (days: u8)
    ensures
        days as int == spec_days_of_month(year as int, month),
{
    match month {
        Month::January => 31,
        Month::February => {
            if is_leap_year(year) {
                29
            } else {
                28
            }
        },
        Month::March => 31,
        Month::April => 30,
        Month::May => 31,
        Month::June => 30,
        Month::July => 31,
        Month::August => 31,
        Month::September => 30,
        Month::October => 31,
        Month::November => 30,
        Month::December => 31,
    }
}

} // verus!
