//! Gregorian dates from 1970 on, counted in days since 1 January 1970, with
//! the months of the year and the days of the week.

use vstd::prelude::*;

use crate::language::{decimal, decimal_text, DAY_NAMES, MONTH_NAMES};
use crate::spec_is_leap_year;

verus! {

/// A day of the week.
#[derive(Clone, Copy, Debug, PartialEq, Eq, PartialOrd, Ord, Structural)]
pub enum Day {
    Sunday,
    Monday,
    Tuesday,
    Wednesday,
    Thursday,
    Friday,
    Saturday,
}

/// A month of the Gregorian year.
#[derive(Clone, Copy, Debug, PartialEq, Eq, PartialOrd, Ord, Structural)]
pub enum Month {
    January,
    February,
    March,
    April,
    May,
    June,
    July,
    August,
    September,
    October,
    November,
    December,
}

/// The months from one month up to, and without, another, around the end
/// of the year if need be.
#[derive(Clone, Copy, Debug, PartialEq, Eq)]
pub struct MonthRange(Month, Month);

/// The days of the week from one day up to, and without, another, around
/// the end of the week if need be.
#[derive(Clone, Copy, Debug, PartialEq, Eq)]
pub struct DayRange(Day, Day);

/// A date of the Gregorian calendar, not before 1970.
#[derive(Clone, Copy, Debug, PartialEq, Eq, PartialOrd, Ord)]
pub struct Date {
    year: u16,
    month: Month,
    day: u8,
}

/// The days of the week, from Sunday.
pub const DAYS: [Day; 7] = [
    Day::Sunday,
    Day::Monday,
    Day::Tuesday,
    Day::Wednesday,
    Day::Thursday,
    Day::Friday,
    Day::Saturday,
];

/// The months of the year, from January.
pub const MONTHS: [Month; 12] = [
    Month::January,
    Month::February,
    Month::March,
    Month::April,
    Month::May,
    Month::June,
    Month::July,
    Month::August,
    Month::September,
    Month::October,
    Month::November,
    Month::December,
];

/// The day of the week of 1 January 1970.
pub const DAY_OF_UNIX_EPOCH: Day = Day::Thursday;

/// Days from 1 January 1970 to 1 January 65536: one more than the last day
/// a `Date` can name.
pub const EPOCH_DAYS_END: u32 = 23_217_004;

/// Number of days of month `month` of `year`.
pub open spec fn spec_days_of_month(year: int, month: Month) -> int {
    match month {
        Month::February => if spec_is_leap_year(year) {
            29
        } else {
            28
        },
        Month::April | Month::June | Month::September | Month::November => 30,
        _ => 31,
    }
}

/// The month whose number (1 to 12) is `number`.
pub open spec fn month_of_number(number: int) -> Month {
    if number <= 1 {
        Month::January
    } else if number == 2 {
        Month::February
    } else if number == 3 {
        Month::March
    } else if number == 4 {
        Month::April
    } else if number == 5 {
        Month::May
    } else if number == 6 {
        Month::June
    } else if number == 7 {
        Month::July
    } else if number == 8 {
        Month::August
    } else if number == 9 {
        Month::September
    } else if number == 10 {
        Month::October
    } else if number == 11 {
        Month::November
    } else {
        Month::December
    }
}

/// The day of the week whose number (0 to 6, from Sunday) is `number`.
pub open spec fn day_of_number(number: int) -> Day {
    if number <= 0 {
        Day::Sunday
    } else if number == 1 {
        Day::Monday
    } else if number == 2 {
        Day::Tuesday
    } else if number == 3 {
        Day::Wednesday
    } else if number == 4 {
        Day::Thursday
    } else if number == 5 {
        Day::Friday
    } else {
        Day::Saturday
    }
}

/// Days of `year` that precede the month whose number is `number`.
pub open spec fn days_before_month(year: int, number: int) -> int
    decreases number,
{
    if number <= 1 {
        0
    } else {
        days_before_month(year, number - 1) + spec_days_of_month(
            year,
            month_of_number(number - 1),
        )
    }
}

/// Days from 1 January 1970 to 1 January of `year`.
pub open spec fn days_before_year(year: int) -> int
    decreases year,
{
    if year <= 1970 {
        0
    } else {
        days_before_year(year - 1) + crate::spec_days_of_year(year - 1)
    }
}

/// Number of leap years from year 1 to `year`.
pub open spec fn leap_years_to(year: int) -> int {
    year / 4 - year / 100 + year / 400
}

/// Days from 1 January 1970 to the given day. Day 0 of a month stands for
/// the last day of the month before.
pub open spec fn days_from_epoch(year: int, month: Month, day: int) -> int {
    days_before_year(year) + days_before_month(year, month.spec_number()) + day - 1
}

/// Whether `year` is a leap year.
pub fn is_leap_year(year: u16) -> (leap: bool)
    ensures
        leap == spec_is_leap_year(year as int),
{
    year % 4 == 0 && (year % 100 != 0 || year % 400 == 0)
}

/// Number of days of `year`.
pub fn days_of_year(year: u16) -> (days: u16)
    ensures
        days as int == crate::spec_days_of_year(year as int),
{
    if is_leap_year(year) {
        366
    } else {
        365
    }
}

/// Number of days of month `month` of `year`.
pub fn days_of_month(year: u16, month: Month) -> (days: u8)
    ensures
        days as int == spec_days_of_month(year as int, month),
{
    match month {
        Month::January => 31,
        Month::February => {
            if is_leap_year(year) {
                29
            } else {
                28
            }
        },
        Month::March => 31,
        Month::April => 30,
        Month::May => 31,
        Month::June => 30,
        Month::July => 31,
        Month::August => 31,
        Month::September => 30,
        Month::October => 31,
        Month::November => 30,
        Month::December => 31,
    }
}

impl Month {
    /// The number of the month, from 1 for January.
    pub open spec fn spec_number(self) -> int {
        match self {
            Month::January => 1,
            Month::February => 2,
            Month::March => 3,
            Month::April => 4,
            Month::May => 5,
            Month::June => 6,
            Month::July => 7,
            Month::August => 8,
            Month::September => 9,
            Month::October => 10,
            Month::November => 11,
            Month::December => 12,
        }
    }

    /// The month that follows, January after December.
    pub open spec fn spec_next(self) -> Month {
        month_of_number(self.spec_number() % 12 + 1)
    }

    /// The month before, December before January.
    pub open spec fn spec_pred(self) -> Month {
        month_of_number((self.spec_number() + 10) % 12 + 1)
    }

    /// The month whose number is `number`; nothing but for 1 to 12.
    pub fn from_number(number: u8) -> (month: Option<Month>)
        ensures
            month is Some <==> 1 <= number <= 12,
            month matches Some(m) ==> m == month_of_number(number as int) && m.spec_number()
                == number,
    {
        if 1 <= number && number <= 12 {
            Some(MONTHS[(number - 1) as usize])
        } else {
            None
        }
    }

    /// The number of the month, from 1 for January.
    pub fn as_number(self) -> (number: u8)
        ensures
            number as int == self.spec_number(),
            1 <= number <= 12,
    {
        match self {
            Month::January => 1,
            Month::February => 2,
            Month::March => 3,
            Month::April => 4,
            Month::May => 5,
            Month::June => 6,
            Month::July => 7,
            Month::August => 8,
            Month::September => 9,
            Month::October => 10,
            Month::November => 11,
            Month::December => 12,
        }
    }

    /// The month that follows, January after December.
    pub fn next(self) -> (next: Month)
        ensures
            next == self.spec_next(),
            next.spec_number() == self.spec_number() % 12 + 1,
    {
        match self {
            Month::January => Month::February,
            Month::February => Month::March,
            Month::March => Month::April,
            Month::April => Month::May,
            Month::May => Month::June,
            Month::June => Month::July,
            Month::July => Month::August,
            Month::August => Month::September,
            Month::September => Month::October,
            Month::October => Month::November,
            Month::November => Month::December,
            Month::December => Month::January,
        }
    }
}

impl Month {
    /// The month before, December before January.
    pub fn pred(self) -> (pred: Month)
        ensures
            pred == self.spec_pred(),
            pred.spec_next() == self,
    {
        match self {
            Month::January => Month::December,
            Month::February => Month::January,
            Month::March => Month::February,
            Month::April => Month::March,
            Month::May => Month::April,
            Month::June => Month::May,
            Month::July => Month::June,
            Month::August => Month::July,
            Month::September => Month::August,
            Month::October => Month::September,
            Month::November => Month::October,
            Month::December => Month::November,
        }
    }
}

impl Day {
    /// The number of the day, from 0 for Sunday.
    pub open spec fn spec_number(self) -> int {
        match self {
            Day::Sunday => 0,
            Day::Monday => 1,
            Day::Tuesday => 2,
            Day::Wednesday => 3,
            Day::Thursday => 4,
            Day::Friday => 5,
            Day::Saturday => 6,
        }
    }

    /// The day of the week `days` days later, or earlier for a negative
    /// number.
    pub open spec fn spec_offset(self, days: int) -> Day {
        day_of_number((self.spec_number() + days) % 7)
    }

    /// The day whose number is `number`, Sunday being both 0 and 7;
    /// nothing from 8 on.
    pub fn from_number(number: u8) -> (day: Option<Day>)
        ensures
            day is Some <==> number <= 7,
            day matches Some(d) ==> d == day_of_number(number as int % 7) && d.spec_number()
                == number % 7,
    {
        if number == 7 {
            Some(Day::Sunday)
        } else if number < 7 {
            Some(DAYS[number as usize])
        } else {
            None
        }
    }

    /// The number of the day, from 0 for Sunday.
    pub fn as_number(self) -> (number: u8)
        ensures
            number as int == self.spec_number(),
            number <= 6,
    {
        match self {
            Day::Sunday => 0,
            Day::Monday => 1,
            Day::Tuesday => 2,
            Day::Wednesday => 3,
            Day::Thursday => 4,
            Day::Friday => 5,
            Day::Saturday => 6,
        }
    }

    /// The day of the week `days` days later, or earlier for a negative
    /// number.
    pub fn offset(self, days: i32) -> (day: Day)
        ensures
            day == self.spec_offset(days as int),
            day.spec_number() == (self.spec_number() + days) % 7,
    {
        let rest: i32 = days % 7;
        let forward: i32 = if rest < 0 {
            rest + 7
        } else {
            rest
        };
        let number: i32 = (self.as_number() as i32 + forward) % 7;
        DAYS[number as usize]
    }

    /// The day that follows, Sunday after Saturday.
    pub fn next(self) -> (next: Day)
        ensures
            next == self.spec_offset(1),
            next.spec_number() == (self.spec_number() + 1) % 7,
    {
        match self {
            Day::Sunday => Day::Monday,
            Day::Monday => Day::Tuesday,
            Day::Tuesday => Day::Wednesday,
            Day::Wednesday => Day::Thursday,
            Day::Thursday => Day::Friday,
            Day::Friday => Day::Saturday,
            Day::Saturday => Day::Sunday,
        }
    }
}

/// 1 January 1970.
pub fn unix_epoch() -> (date: Date)
    ensures
        date.spec_year() == 1970,
        date.spec_month() == Month::January,
        date.spec_day() == 1,
        date.spec_since_epoch() == 0,
{
    Date { year: 1970, month: Month::January, day: 1 }
}

/// The days that precede each month of `year`, and the length of the year.
pub proof fn lemma_days_before_month_values(year: int)
    ensures
        days_before_month(year, 1) == 0,
        days_before_month(year, 2) == 31,
        days_before_month(year, 3) == 31 + spec_days_of_month(year, Month::February),
        days_before_month(year, 4) == days_before_month(year, 3) + 31,
        days_before_month(year, 5) == days_before_month(year, 3) + 61,
        days_before_month(year, 6) == days_before_month(year, 3) + 92,
        days_before_month(year, 7) == days_before_month(year, 3) + 122,
        days_before_month(year, 8) == days_before_month(year, 3) + 153,
        days_before_month(year, 9) == days_before_month(year, 3) + 184,
        days_before_month(year, 10) == days_before_month(year, 3) + 214,
        days_before_month(year, 11) == days_before_month(year, 3) + 245,
        days_before_month(year, 12) == days_before_month(year, 3) + 275,
        days_before_month(year, 13) == crate::spec_days_of_year(year),
{
    assert(days_before_month(year, 1) == 0);
    assert(days_before_month(year, 2) == 31);
    assert(days_before_month(year, 3) == 31 + spec_days_of_month(year, Month::February));
    assert(days_before_month(year, 4) == days_before_month(year, 3) + 31);
    assert(days_before_month(year, 5) == days_before_month(year, 3) + 61);
    assert(days_before_month(year, 6) == days_before_month(year, 3) + 92);
    assert(days_before_month(year, 7) == days_before_month(year, 3) + 122);
    assert(days_before_month(year, 8) == days_before_month(year, 3) + 153);
    assert(days_before_month(year, 9) == days_before_month(year, 3) + 184);
    assert(days_before_month(year, 10) == days_before_month(year, 3) + 214);
    assert(days_before_month(year, 11) == days_before_month(year, 3) + 245);
    assert(days_before_month(year, 12) == days_before_month(year, 3) + 275);
    assert(days_before_month(year, 13) == days_before_month(year, 3) + 306);
}

/// A later month begins later in the year, and every month ends within
/// the year.
pub proof fn lemma_days_before_month_grows(year: int, from: Month, to: Month)
    requires
        from.spec_number() < to.spec_number(),
    ensures
        days_before_month(year, from.spec_number()) + spec_days_of_month(year, from)
            <= days_before_month(year, to.spec_number()),
        days_before_month(year, to.spec_number()) + spec_days_of_month(year, to)
            <= crate::spec_days_of_year(year),
{
    lemma_days_before_month_values(year);
}

/// The days before a year, counted without adding year by year.
pub proof fn lemma_days_before_year_counts(year: int)
    requires
        1970 <= year,
    ensures
        days_before_year(year) == 365 * (year - 1970) + leap_years_to(year - 1) - leap_years_to(
            1969,
        ),
    decreases year,
{
    if year > 1970 {
        lemma_days_before_year_counts(year - 1);
    }
}

/// A later year begins later.
pub proof fn lemma_days_before_year_grows(from: int, to: int)
    requires
        from <= to,
    ensures
        0 <= days_before_year(from) <= days_before_year(to),
    decreases to - from,
{
    if from < to {
        lemma_days_before_year_grows(from, to - 1);
    } else if from > 1970 {
        lemma_days_before_year_counts(from);
    }
}

/// Two different days lie a different number of days after 1 January 1970.
pub proof fn law_epoch_days_tell_dates_apart(
    year_a: int,
    month_a: Month,
    day_a: int,
    year_b: int,
    month_b: Month,
    day_b: int,
)
    requires
        1 <= day_a <= spec_days_of_month(year_a, month_a),
        1 <= day_b <= spec_days_of_month(year_b, month_b),
        days_from_epoch(year_a, month_a, day_a) == days_from_epoch(year_b, month_b, day_b),
        1970 <= year_a,
        1970 <= year_b,
    ensures
        year_a == year_b,
        month_a == month_b,
        day_a == day_b,
{
    lemma_days_before_month_values(year_a);
    lemma_days_before_month_values(year_b);
    if year_a < year_b {
        lemma_days_before_year_grows(year_a + 1, year_b);
    } else if year_b < year_a {
        lemma_days_before_year_grows(year_b + 1, year_a);
    } else if month_a.spec_number() < month_b.spec_number() {
        lemma_days_before_month_grows(year_a, month_a, month_b);
    } else if month_b.spec_number() < month_a.spec_number() {
        lemma_days_before_month_grows(year_a, month_b, month_a);
    }
}

impl MonthRange {
    /// The month the range begins with.
    pub closed spec fn spec_from(self) -> Month {
        self.0
    }

    /// The month before which the range ends.
    pub closed spec fn spec_to(self) -> Month {
        self.1
    }

    /// Number of months in the range.
    pub open spec fn spec_len(self) -> int {
        (self.spec_to().spec_number() - self.spec_from().spec_number()) % 12
    }

    /// The months from `from` up to, and without, `to`.
    pub fn new(from: Month, to: Month) -> (range: Self)
        ensures
            range.spec_from() == from,
            range.spec_to() == to,
    {
        Self(from, to)
    }

    /// The month the range begins with.
    pub fn from(self) -> (from: Month)
        ensures
            from == self.spec_from(),
    {
        self.0
    }

    /// The month before which the range ends.
    pub fn to(self) -> (to: Month)
        ensures
            to == self.spec_to(),
    {
        self.1
    }

    /// Takes the first month off the range; nothing once the range is
    /// empty.
    pub fn next(&mut self) -> (item: Option<Month>)
        ensures
            item is Some <==> old(self).spec_from() != old(self).spec_to(),
            item is Some ==> item == Some(old(self).spec_from()) && final(self).spec_from() == old(
                self,
            ).spec_from().spec_next() && final(self).spec_len() == old(self).spec_len() - 1,
            item is None ==> *final(self) == *old(self) && old(self).spec_len() == 0,
            final(self).spec_to() == old(self).spec_to(),
    {
        if self.0 != self.1 {
            let output = self.0;
            self.0 = self.0.next();
            Some(output)
        } else {
            None
        }
    }
}

impl DayRange {
    /// The day the range begins with.
    pub closed spec fn spec_from(self) -> Day {
        self.0
    }

    /// The day before which the range ends.
    pub closed spec fn spec_to(self) -> Day {
        self.1
    }

    /// Number of days in the range.
    pub open spec fn spec_len(self) -> int {
        (self.spec_to().spec_number() - self.spec_from().spec_number()) % 7
    }

    /// The days from `from` up to, and without, `to`.
    pub fn new(from: Day, to: Day) -> (range: Self)
        ensures
            range.spec_from() == from,
            range.spec_to() == to,
    {
        Self(from, to)
    }

    /// The day the range begins with.
    pub fn from(self) -> (from: Day)
        ensures
            from == self.spec_from(),
    {
        self.0
    }

    /// The day before which the range ends.
    pub fn to(self) -> (to: Day)
        ensures
            to == self.spec_to(),
    {
        self.1
    }

    /// Takes the first day off the range; nothing once the range is empty.
    pub fn next(&mut self) -> (item: Option<Day>)
        ensures
            item is Some <==> old(self).spec_from() != old(self).spec_to(),
            item is Some ==> item == Some(old(self).spec_from()) && final(self).spec_from() == old(
                self,
            ).spec_from().spec_offset(1) && final(self).spec_len() == old(self).spec_len() - 1,
            item is None ==> *final(self) == *old(self) && old(self).spec_len() == 0,
            final(self).spec_to() == old(self).spec_to(),
    {
        if self.0 != self.1 {
            let output = self.0;
            self.0 = self.0.next();
            Some(output)
        } else {
            None
        }
    }
}

/// The system clock's time. Nothing is claimed of it.
#[verifier::external_type_specification]
#[verifier::external_body]
pub struct ExSystemTime(std::time::SystemTime);

/// The error of a clock that stands before the time it is measured from.
#[verifier::external_type_specification]
#[verifier::external_body]
pub struct ExSystemTimeError(std::time::SystemTimeError);

/// `std::time::SystemTime::now`: what the system clock shows. Nothing is
/// claimed of the result.
#[verifier::external_body]
fn clock_now() -> (now: std::time::SystemTime) {
    std::time::SystemTime::now()
}

/// `std::time::SystemTime::duration_since`, measured from
/// `std::time::UNIX_EPOCH`: the time from the start of 1970 to `time`, or
/// an error where `time` is earlier. Nothing is claimed of the result.
#[verifier::external_body]
fn time_since_epoch(time: &std::time::SystemTime) -> (span: Result<
    std::time::Duration,
    std::time::SystemTimeError,
>) {
    time.duration_since(std::time::UNIX_EPOCH)
}

/// `std::time::Duration::as_secs`: the whole seconds of `span`. Nothing is
/// claimed of the result.
#[verifier::external_body]
fn whole_seconds(span: &std::time::Duration) -> (seconds: u64) {
    span.as_secs()
}

impl Date {
    #[verifier::type_invariant]
    spec fn in_calendar(self) -> bool {
        self.year >= 1970 && self.day as int <= spec_days_of_month(self.year as int, self.month)
    }

    /// The year.
    pub closed spec fn spec_year(self) -> int {
        self.year as int
    }

    /// The month.
    pub closed spec fn spec_month(self) -> Month {
        self.month
    }

    /// The day of the month.
    pub closed spec fn spec_day(self) -> int {
        self.day as int
    }

    /// Days from 1 January 1970 to this date.
    pub open spec fn spec_since_epoch(self) -> int {
        days_from_epoch(self.spec_year(), self.spec_month(), self.spec_day())
    }

    /// The date of the given year, month and day, if the year is not
    /// before 1970 and the month has no fewer days. Day 0 is taken, for
    /// the last day of the month before.
    pub fn new(year: u16, month: Month, day: u8) -> (date: Option<Self>)
        ensures
            date is Some <==> year >= 1970 && day as int <= spec_days_of_month(year as int, month),
            date matches Some(d) ==> d.spec_year() == year && d.spec_month() == month
                && d.spec_day() == day,
    {
        if year >= 1970 && day <= days_of_month(year, month) {
            Some(Self { year, month, day })
        } else {
            None
        }
    }

    /// The year.
    pub fn year(&self) -> (year: u16)
        ensures
            year as int == self.spec_year(),
            year >= 1970,
    {
        proof {
            use_type_invariant(self);
        }
        self.year
    }

    /// The month.
    pub fn month(&self) -> (month: Month)
        ensures
            month == self.spec_month(),
    {
        self.month
    }

    /// The day of the month.
    pub fn day(&self) -> (day: u8)
        ensures
            day as int == self.spec_day(),
            day as int <= spec_days_of_month(self.spec_year(), self.spec_month()),
    {
        proof {
            use_type_invariant(self);
        }
        self.day
    }

    /// The date that lies `days` days after 1 January 1970.
    pub fn from_unix_epoch(days: u32) -> (date: Self)
        requires
            days < EPOCH_DAYS_END,
        ensures
            date.spec_since_epoch() == days,
            1970 <= date.spec_year(),
            1 <= date.spec_day() <= spec_days_of_month(date.spec_year(), date.spec_month()),
    {
        let mut rest: u32 = days;
        let mut year: u16 = 1970;
        proof {
            lemma_days_before_year_counts(65536);
        }
        loop
            invariant
                1970 <= year,
                days < EPOCH_DAYS_END,
                days_before_year(65536) == EPOCH_DAYS_END,
                rest as int == days - days_before_year(year as int),
            ensures
                1970 <= year,
                rest as int == days - days_before_year(year as int),
                rest < crate::spec_days_of_year(year as int),
            decreases 65536 - year,
        {
            let length: u32 = days_of_year(year) as u32;
            if rest < length {
                break ;
            }
            proof {
                lemma_days_before_year_grows(year + 1, 65536);
            }
            rest = rest - length;
            year = year + 1;
        }
        let mut month = Month::January;
        proof {
            lemma_days_before_month_values(year as int);
        }
        loop
            invariant
                1970 <= year,
                rest as int == days - days_before_year(year as int) - days_before_month(
                    year as int,
                    month.spec_number(),
                ),
                rest + days_before_month(year as int, month.spec_number())
                    < crate::spec_days_of_year(year as int),
            ensures
                rest as int == days - days_before_year(year as int) - days_before_month(
                    year as int,
                    month.spec_number(),
                ),
                rest < spec_days_of_month(year as int, month),
            decreases 12 - month.spec_number(),
        {
            let length: u32 = days_of_month(year, month) as u32;
            if rest < length {
                break ;
            }
            proof {
                lemma_days_before_month_values(year as int);
                assert(month_of_number(month.spec_number()) == month);
            }
            rest = rest - length;
            month = month.next();
        }
        Self { year, month, day: (rest + 1) as u8 }
    }

    /// The date of the day in which second `seconds` after the start of
    /// 1970 falls; nothing from the year 65536 on.
    pub fn from_unix_seconds(seconds: u64) -> (date: Option<Self>)
        ensures
            date is Some <==> seconds / 86400 < EPOCH_DAYS_END,
            date matches Some(d) ==> d.spec_since_epoch() == seconds / 86400 && 1970
                <= d.spec_year() && 1 <= d.spec_day() <= spec_days_of_month(
                d.spec_year(),
                d.spec_month(),
            ),
    {
        let days: u64 = seconds / 86400;
        if days < EPOCH_DAYS_END as u64 {
            Some(Self::from_unix_epoch(days as u32))
        } else {
            None
        }
    }

    /// Days from 1 January 1970 to this date. Day 0 of January 1970 lies
    /// before that day and has no such number.
    pub fn since_unix_epoch(self) -> (days: u32)
        requires
            0 <= self.spec_since_epoch(),
        ensures
            days as int == self.spec_since_epoch(),
            days < EPOCH_DAYS_END,
    {
        proof {
            use_type_invariant(self);
            lemma_days_before_year_counts(self.year as int);
            lemma_days_before_year_counts(65536);
            lemma_days_before_year_grows(self.year + 1, 65536);
            lemma_days_before_month_values(self.year as int);
        }
        let mut days: u32 = 0;
        let mut year: u16 = 1970;
        while year < self.year
            invariant
                1970 <= year <= self.year,
                days as int == days_before_year(year as int),
                days_before_year(self.year as int) < EPOCH_DAYS_END,
            decreases self.year - year,
        {
            proof {
                lemma_days_before_year_grows(year + 1, self.year as int);
            }
            days = days + days_of_year(year) as u32;
            year = year + 1;
        }
        let mut months = MonthRange::new(Month::January, self.month);
        loop
            invariant
                months.spec_to() == self.month,
                months.spec_from().spec_number() <= self.month.spec_number(),
                days as int == days_before_year(self.year as int) + days_before_month(
                    self.year as int,
                    months.spec_from().spec_number(),
                ),
                days_before_year(self.year as int) < EPOCH_DAYS_END,
            ensures
                days as int == days_before_year(self.year as int) + days_before_month(
                    self.year as int,
                    self.month.spec_number(),
                ),
            decreases 12 - months.spec_from().spec_number(),
        {
            let ghost before = months.spec_from();
            match months.next() {
                Some(month) => {
                    proof {
                        assert(month_of_number(before.spec_number()) == before);
                        lemma_days_before_month_grows(self.year as int, before, self.month);
                        lemma_days_before_month_values(self.year as int);
                    }
                    days = days + days_of_month(self.year, month) as u32;
                },
                None => {
                    break ;
                },
            }
        }
        days + self.day as u32 - 1
    }

    /// The day of the week.
    pub fn day_of_week(self) -> (day: Day)
        requires
            0 <= self.spec_since_epoch(),
        ensures
            day == DAY_OF_UNIX_EPOCH.spec_offset(self.spec_since_epoch()),
    {
        DAY_OF_UNIX_EPOCH.offset(self.since_unix_epoch() as i32)
    }

    /// The date the system clock shows, in universal time; nothing if the
    /// clock stands before 1970 or from the year 65536 on.
    pub fn today() -> (date: Option<Self>)
        ensures
            date matches Some(d) ==> 1 <= d.spec_day() && 0 <= d.spec_since_epoch()
                < EPOCH_DAYS_END,
    {
        let now = clock_now();
        match time_since_epoch(&now) {
            Ok(span) => Self::from_unix_seconds(whole_seconds(&span)),
            Err(_) => None,
        }
    }
}

impl Month {
    /// The English name of the month.
    pub fn name(self) -> (name: &'static str)
        ensures
            name@ == MONTH_NAMES@[self.spec_number() - 1]@,
    {
        MONTH_NAMES[self.as_number() as usize - 1]
    }
}

impl Day {
    /// The English name of the day.
    pub fn name(self) -> (name: &'static str)
        ensures
            name@ == DAY_NAMES@[self.spec_number()]@,
    {
        DAY_NAMES[self.as_number() as usize]
    }
}

impl Date {
    /// The date written as year, number of the month and day, with
    /// hyphens between them.
    pub open spec fn spec_text(self) -> Seq<char> {
        decimal_text(self.spec_year()) + "-"@ + decimal_text(self.spec_month().spec_number())
            + "-"@ + decimal_text(self.spec_day())
    }

    /// The date written as year, number of the month and day, with
    /// hyphens between them.
    pub fn to_text(&self) -> (text: String)
        ensures
            text@ == self.spec_text(),
    {
        let mut text = decimal(self.year as i64);
        text.append("-");
        let month = decimal(self.month.as_number() as i64);
        text.append(month.as_str());
        text.append("-");
        let day = decimal(self.day as i64);
        text.append(day.as_str());
        text
    }
}

} // verus!
