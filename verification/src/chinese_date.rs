//! Dates of the Chinese calendar: their validation, their place in the
//! Chinese year, and their conversion from and to days of the Gregorian
//! year.

use vstd::prelude::*;

use crate::days_of_year;
use crate::spec_days_of_year;
use crate::tables::{
    chunjie, data, lemma_year_days_bounds, lemma_year_fits, new_year_day, year_days, year_word,
};
use crate::year_data::{
    days_before, in_range, leap_of_word, slot_count, slot_days, slot_is_leap, slot_long,
    slot_month, slot_of, word_leap, word_ok, word_year_days, YearRecord,
};

verus! {

/// A year of the Chinese calendar.
#[derive(Clone, Copy, Debug, PartialEq, Eq, PartialOrd, Ord)]
pub struct ChineseYear(pub i32);

/// A month of the Chinese calendar: its number, and whether it is the leap
/// month of that number.
#[derive(Clone, Copy, Debug, PartialEq, Eq, PartialOrd, Ord)]
pub struct ChineseMonth(pub u8, pub bool);

/// A day of a Chinese month.
#[derive(Clone, Copy, Debug, PartialEq, Eq, PartialOrd, Ord)]
pub struct ChineseDay(pub u8);

/// A date of the Chinese calendar. Every value names a day that exists.
#[derive(Clone, Copy, Debug, PartialEq, Eq, PartialOrd, Ord)]
pub struct ChineseDate {
    year: ChineseYear,
    month: ChineseMonth,
    day: ChineseDay,
}

/// What a Chinese date consists of.
pub struct DateParts {
    pub year: int,
    pub month: int,
    pub leap: bool,
    pub day: int,
}

/// The date names a day that exists: a year of the tables, a month of that
/// year, leap only if the year has that leap month, and a day of that month.
pub open spec fn parts_valid(parts: DateParts) -> bool {
    let word = year_word(parts.year);
    &&& in_range(parts.year)
    &&& 1 <= parts.month <= 12
    &&& parts.leap ==> parts.month == word_leap(word)
    &&& 1 <= parts.day <= slot_days(word, slot_of(word, parts.month, parts.leap))
}

/// Days between the first day of the Chinese year and the date.
pub open spec fn parts_ordinal(parts: DateParts) -> int {
    let word = year_word(parts.year);
    days_before(word, slot_of(word, parts.month, parts.leap)) + parts.day - 1
}

/// The first slot from `slot` on that ends after day `ordinal` of the year.
pub open spec fn slot_at(word: int, ordinal: int, slot: int) -> int
    decreases 12 - slot,
{
    if slot >= 12 || ordinal < days_before(word, slot + 1) {
        slot
    } else {
        slot_at(word, ordinal, slot + 1)
    }
}

/// The date that lies `ordinal` days after the first day of Chinese year
/// `year`, if the year is in the tables and has that many days.
pub open spec fn ordinal_to_parts(year: int, ordinal: int) -> Option<DateParts> {
    if in_range(year) && 0 <= ordinal < year_days(year) {
        let word = year_word(year);
        let slot = slot_at(word, ordinal, 0);
        Some(
            DateParts {
                year,
                month: slot_month(word, slot),
                leap: slot_is_leap(word, slot),
                day: ordinal - days_before(word, slot) + 1,
            },
        )
    } else {
        None
    }
}

/// The Chinese year in which day `day_of_year` (from 0) of Gregorian year
/// `year` lies, and the day's place in that Chinese year. A day before the
/// new year belongs to the Chinese year before, which the tables must
/// hold too.
pub open spec fn gregorian_to_ordinal(year: int, day_of_year: int) -> Option<(int, int)> {
    if !in_range(year) {
        None
    } else if day_of_year >= new_year_day(year) {
        Some((year, day_of_year - new_year_day(year)))
    } else if year > 1900 {
        Some((year - 1, day_of_year + spec_days_of_year(year - 1) - new_year_day(year - 1)))
    } else {
        None
    }
}

/// The Chinese date of day `day_of_year` (from 0) of Gregorian year `year`.
pub open spec fn gregorian_to_parts(year: int, day_of_year: int) -> Option<DateParts> {
    match gregorian_to_ordinal(year, day_of_year) {
        Some((chinese_year, ordinal)) => ordinal_to_parts(chinese_year, ordinal),
        None => None,
    }
}

/// The Gregorian year and day of that year (from 0) of a Chinese date.
pub open spec fn parts_to_gregorian(parts: DateParts) -> (int, int) {
    let total = parts_ordinal(parts) + new_year_day(parts.year);
    if total < spec_days_of_year(parts.year) {
        (parts.year, total)
    } else {
        (parts.year + 1, total - spec_days_of_year(parts.year))
    }
}

/// One more slot adds the days of its month.
pub proof fn lemma_days_before_step(word: int, slot: int)
    requires
        0 <= slot,
    ensures
        days_before(word, slot + 1) == days_before(word, slot) + slot_days(word, slot),
        29 <= slot_days(word, slot) <= 30,
{
}

/// Later slots begin later.
pub proof fn lemma_days_before_grows(word: int, from: int, to: int)
    requires
        0 <= from <= to,
    ensures
        days_before(word, from) <= days_before(word, to),
    decreases to - from,
{
    if from < to {
        lemma_days_before_grows(word, from, to - 1);
        lemma_days_before_step(word, to - 1);
    }
}

/// The month and leap flag of a slot lead back to that slot.
pub proof fn lemma_slot_names_month(word: int, slot: int)
    requires
        word_ok(word),
        0 <= slot < slot_count(word),
    ensures
        1 <= slot_month(word, slot) <= 12,
        slot_is_leap(word, slot) ==> slot_month(word, slot) == word_leap(word),
        slot_of(word, slot_month(word, slot), slot_is_leap(word, slot)) == slot,
{
}

/// The slot of a month holds that month.
pub proof fn lemma_month_has_slot(word: int, month: int, leap: bool)
    requires
        word_ok(word),
        1 <= month <= 12,
        leap ==> month == word_leap(word),
    ensures
        0 <= slot_of(word, month, leap) < slot_count(word),
        slot_month(word, slot_of(word, month, leap)) == month,
        slot_is_leap(word, slot_of(word, month, leap)) == leap,
{
}

/// Searching from `from`, `slot_at` finds the slot whose month holds day
/// `ordinal`.
pub proof fn lemma_slot_at_holds(word: int, ordinal: int, from: int)
    requires
        word_ok(word),
        0 <= from < slot_count(word),
        days_before(word, from) <= ordinal < word_year_days(word),
    ensures
        from <= slot_at(word, ordinal, from) < slot_count(word),
        days_before(word, slot_at(word, ordinal, from)) <= ordinal < days_before(
            word,
            slot_at(word, ordinal, from) + 1,
        ),
    decreases 12 - from,
{
    if from >= 12 || ordinal < days_before(word, from + 1) {
    } else {
        lemma_slot_at_holds(word, ordinal, from + 1);
    }
}

/// `slot_at` finds no other slot than the one whose month holds the day.
pub proof fn lemma_slot_at_finds(word: int, ordinal: int, slot: int, from: int)
    requires
        0 <= from <= slot <= 12,
        days_before(word, slot) <= ordinal < days_before(word, slot + 1),
    ensures
        slot_at(word, ordinal, from) == slot,
    decreases slot - from,
{
    if from < slot {
        lemma_days_before_grows(word, from + 1, slot);
        lemma_slot_at_finds(word, ordinal, slot, from + 1);
    }
}

/// A date that `ordinal_to_parts` gives exists, lies in the year asked
/// for, and has the ordinal asked for.
pub proof fn lemma_ordinal_to_parts_valid(year: int, ordinal: int)
    requires
        ordinal_to_parts(year, ordinal) is Some,
    ensures
        parts_valid(ordinal_to_parts(year, ordinal)->0),
        ordinal_to_parts(year, ordinal)->0.year == year,
        parts_ordinal(ordinal_to_parts(year, ordinal)->0) == ordinal,
{
    let word = year_word(year);
    lemma_year_fits(year);
    lemma_slot_at_holds(word, ordinal, 0);
    let slot = slot_at(word, ordinal, 0);
    lemma_slot_names_month(word, slot);
    lemma_days_before_step(word, slot);
}

/// The ordinal of a date that exists leads back to the date.
pub proof fn lemma_parts_ordinal_inverts(parts: DateParts)
    requires
        parts_valid(parts),
    ensures
        0 <= parts_ordinal(parts) < year_days(parts.year),
        ordinal_to_parts(parts.year, parts_ordinal(parts)) == Some(parts),
{
    let word = year_word(parts.year);
    lemma_year_fits(parts.year);
    lemma_month_has_slot(word, parts.month, parts.leap);
    let slot = slot_of(word, parts.month, parts.leap);
    lemma_days_before_step(word, slot);
    lemma_days_before_grows(word, 0, slot);
    lemma_days_before_grows(word, slot + 1, slot_count(word));
    lemma_slot_at_finds(word, parts_ordinal(parts), slot, 0);
}

impl View for ChineseDate {
    type V = DateParts;

    closed spec fn view(&self) -> DateParts {
        DateParts {
            year: self.year.0 as int,
            month: self.month.0 as int,
            leap: self.month.1,
            day: self.day.0 as int,
        }
    }
}

/// Slot of month `month` of `year`, leap or not; nothing for a year outside
/// the tables, a month that is none of the twelve, or a leap month the
/// year does not have.
pub fn ordinal_month(year: i32, month: u8, leap: bool) -> (slot: Option<u8>)
    ensures
        slot is Some <==> in_range(year as int) && 1 <= month <= 12 && (leap ==> month as int
            == word_leap(year_word(year as int))),
        slot matches Some(s) ==> s as int == slot_of(
            year_word(year as int),
            month as int,
            leap,
        ),
{
    let word = match data(year) {
        Some(word) => word,
        None => {
            return None;
        },
    };
    if month < 1 || month > 12 {
        return None;
    }
    let leap_month = leap_of_word(word);
    if leap && month != leap_month {
        return None;
    }
    Some(
        if leap_month > 0 && (month > leap_month || leap) {
            month
        } else {
            month - 1
        },
    )
}

/// Whether month `month` of `year` has 30 days; nothing where
/// `ordinal_month` gives nothing.
pub fn is_long_month(year: i32, month: u8, leap: bool) -> (long: Option<bool>)
    ensures
        long is Some <==> in_range(year as int) && 1 <= month <= 12 && (leap ==> month as int
            == word_leap(year_word(year as int))),
        long matches Some(l) ==> l == slot_long(
            year_word(year as int),
            slot_of(year_word(year as int), month as int, leap),
        ),
{
    match ordinal_month(year, month, leap) {
        Some(slot) => {
            match YearRecord::decode(year) {
                Some(record) => {
                    proof {
                        lemma_year_fits(year as int);
                        lemma_month_has_slot(year_word(year as int), month as int, leap);
                    }
                    Some(record.slot_days(slot) == 30)
                },
                None => None,
            }
        },
        None => None,
    }
}

/// Length in days of a month of a Chinese year; nothing where
/// `ordinal_month` gives nothing.
pub fn days_of_chinese_month(year: ChineseYear, month: ChineseMonth) -> (days: Option<u8>)
    ensures
        days is Some <==> in_range(year.0 as int) && 1 <= month.0 <= 12 && (month.1
            ==> month.0 as int == word_leap(year_word(year.0 as int))),
        days matches Some(d) ==> d as int == slot_days(
            year_word(year.0 as int),
            slot_of(year_word(year.0 as int), month.0 as int, month.1),
        ),
{
    match is_long_month(year.0, month.0, month.1) {
        Some(long) => Some(
            if long {
                30
            } else {
                29
            },
        ),
        None => None,
    }
}

/// Number of the leap month of a Chinese year; 0 when it has none or lies
/// outside the tables.
pub fn leap_month(year: ChineseYear) -> (leap: u8)
    ensures
        in_range(year.0 as int) ==> leap as int == word_leap(year_word(year.0 as int)),
        !in_range(year.0 as int) ==> leap == 0,
        leap <= 12,
{
    match data(year.0) {
        Some(word) => {
            proof {
                lemma_year_fits(year.0 as int);
            }
            leap_of_word(word)
        },
        None => 0,
    }
}

impl ChineseDate {
    #[verifier::type_invariant]
    spec fn exists_in_calendar(self) -> bool {
        parts_valid(self@)
    }

    /// The date of the given parts, if it exists.
    pub fn new(year: i32, month: u8, leap: bool, day: u8) -> (date: Option<Self>)
        ensures
            date is Some <==> parts_valid(
                (DateParts { year: year as int, month: month as int, leap, day: day as int }),
            ),
            date matches Some(d) ==> d@ == (DateParts {
                year: year as int,
                month: month as int,
                leap,
                day: day as int,
            }),
    {
        let length = match days_of_chinese_month(ChineseYear(year), ChineseMonth(month, leap)) {
            Some(length) => length,
            None => {
                return None;
            },
        };
        if day < 1 || day > length {
            return None;
        }
        Some(
            ChineseDate {
                year: ChineseYear(year),
                month: ChineseMonth(month, leap),
                day: ChineseDay(day),
            },
        )
    }

    /// The Chinese date of day `ordinal0` (from 0) of Gregorian year `year`.
    /// Nothing for a year outside the tables, for a day before the new year
    /// of 1900, and for a day past the end of the Chinese year it would
    /// fall in.
    pub fn from_gregorian(year: i32, ordinal0: u32) -> (date: Option<Self>)
        ensures
            date is Some <==> gregorian_to_parts(year as int, ordinal0 as int) is Some,
            date matches Some(d) ==> gregorian_to_parts(year as int, ordinal0 as int) == Some(d@),
    {
        if year < 1900 || year > 2100 {
            return None;
        }
        proof {
            lemma_year_fits(year as int);
        }
        let new_year: u32 = match chunjie(year) {
            Some(day) => day as u32,
            None => {
                return None;
            },
        };
        if ordinal0 >= new_year {
            let ordinal: u32 = ordinal0 - new_year;
            if ordinal > 400 {
                proof {
                    lemma_year_days_bounds(year_word(year as int));
                }
                return None;
            }
            Self::from_ordinal(year, ordinal as u16)
        } else if year > 1900 {
            proof {
                lemma_year_fits(year - 1);
            }
            let before: u32 = match chunjie(year - 1) {
                Some(day) => day as u32,
                None => {
                    return None;
                },
            };
            let ordinal: u32 = ordinal0 + days_of_year(year - 1) as u32 - before;
            Self::from_ordinal(year - 1, ordinal as u16)
        } else {
            None
        }
    }

    /// The date that lies `ordinal` days after the first day of Chinese
    /// year `year`. Nothing for a year outside the tables or shorter than
    /// that.
    pub fn from_ordinal(year: i32, ordinal: u16) -> (date: Option<Self>)
        ensures
            date is Some <==> in_range(year as int) && ordinal < year_days(year as int),
            date matches Some(d) ==> ordinal_to_parts(year as int, ordinal as int) == Some(d@),
            date matches Some(d) ==> d@.year == year && parts_ordinal(d@) == ordinal,
    {
        proof {
            if ordinal_to_parts(year as int, ordinal as int) is Some {
                lemma_ordinal_to_parts_valid(year as int, ordinal as int);
            }
        }
        let record = match YearRecord::decode(year) {
            Some(record) => record,
            None => {
                return None;
            },
        };
        let ghost word = year_word(year as int);
        proof {
            lemma_year_fits(year as int);
        }
        let count = record.slot_count();
        let leap_month = record.leap_month();
        let mut slot: u8 = 0;
        let mut day: u16 = ordinal;
        while slot < count
            invariant
                in_range(year as int),
                word == year_word(year as int),
                word_ok(word),
                record.models(word),
                count as int == slot_count(word),
                leap_month as int == word_leap(word),
                slot <= count,
                day as int == ordinal - days_before(word, slot as int),
                ordinal < word_year_days(word) ==> slot_at(word, ordinal as int, 0) == slot_at(
                    word,
                    ordinal as int,
                    slot as int,
                ),
            decreases count - slot,
        {
            let length = record.slot_days(slot);
            proof {
                lemma_days_before_step(word, slot as int);
                lemma_days_before_grows(word, slot + 1, count as int);
            }
            if day < length {
                let (month, leap) = if leap_month > 0 && slot >= leap_month {
                    (slot, slot == leap_month)
                } else {
                    (slot + 1, false)
                };
                proof {
                    lemma_slot_names_month(word, slot as int);
                }
                return Some(
                    ChineseDate {
                        year: ChineseYear(year),
                        month: ChineseMonth(month, leap),
                        day: ChineseDay((day + 1) as u8),
                    },
                );
            }
            day = day - length;
            slot = slot + 1;
        }
        None
    }

    /// The year.
    pub fn year(&self) -> (year: i32)
        ensures
            year as int == self@.year,
            parts_valid(self@),
    {
        proof {
            use_type_invariant(self);
        }
        self.year.0
    }

    /// The number of the month.
    pub fn month(&self) -> (month: u8)
        ensures
            month as int == self@.month,
            parts_valid(self@),
    {
        proof {
            use_type_invariant(self);
        }
        self.month.0
    }

    /// Whether the month is a leap month.
    pub fn leap(&self) -> (leap: bool)
        ensures
            leap == self@.leap,
            parts_valid(self@),
    {
        proof {
            use_type_invariant(self);
        }
        self.month.1
    }

    /// The day of the month.
    pub fn day(&self) -> (day: u8)
        ensures
            day as int == self@.day,
            parts_valid(self@),
    {
        proof {
            use_type_invariant(self);
        }
        self.day.0
    }

    /// The year, as a `ChineseYear`.
    pub fn chinese_year(&self) -> (year: ChineseYear)
        ensures
            year.0 as int == self@.year,
    {
        self.year
    }

    /// The month, as a `ChineseMonth`.
    pub fn chinese_month(&self) -> (month: ChineseMonth)
        ensures
            month.0 as int == self@.month,
            month.1 == self@.leap,
    {
        self.month
    }

    /// The day, as a `ChineseDay`.
    pub fn chinese_day(&self) -> (day: ChineseDay)
        ensures
            day.0 as int == self@.day,
    {
        self.day
    }

    /// Days between the first day of the Chinese year and this date.
    pub fn ordinal(&self) -> (ordinal: u16)
        ensures
            ordinal as int == parts_ordinal(self@),
            ordinal < 390,
    {
        proof {
            use_type_invariant(self);
            lemma_year_fits(self@.year);
            lemma_month_has_slot(year_word(self@.year), self@.month, self@.leap);
        }
        let year = self.year.0;
        let ghost word = year_word(year as int);
        let record = match YearRecord::decode(year) {
            Some(record) => record,
            None => {
                return 0;
            },
        };
        let target = match ordinal_month(year, self.month.0, self.month.1) {
            Some(target) => target,
            None => {
                return 0;
            },
        };
        let mut days: u16 = 0;
        let mut slot: u8 = 0;
        while slot < target
            invariant
                record.models(word),
                slot <= target <= 12,
                days as int == days_before(word, slot as int),
                days <= 30 * slot,
            decreases target - slot,
        {
            proof {
                lemma_days_before_step(word, slot as int);
            }
            days = days + record.slot_days(slot);
            slot = slot + 1;
        }
        days + (self.day.0 as u16 - 1)
    }

    /// The Gregorian year of this date and its day of that year, counted
    /// from 0.
    pub fn to_gregorian(&self) -> (date: (i32, u16))
        ensures
            (date.0 as int, date.1 as int) == parts_to_gregorian(self@),
            date.1 < spec_days_of_year(date.0 as int),
    {
        proof {
            use_type_invariant(self);
            lemma_year_fits(self@.year);
            lemma_parts_ordinal_inverts(self@);
            lemma_year_days_bounds(year_word(self@.year));
        }
        let year = self.year.0;
        let new_year: u16 = match chunjie(year) {
            Some(day) => day as u16,
            None => 0,
        };
        let total: u16 = self.ordinal() + new_year;
        let length = days_of_year(year);
        if total < length {
            (year, total)
        } else {
            (year + 1, total - length)
        }
    }
}

impl ChineseYear {
    /// A year the tables cover, else nothing.
    pub fn new(year: i32) -> (made: Option<Self>)
        ensures
            made is Some <==> in_range(year as int),
            made matches Some(y) ==> y.0 == year,
    {
        if 1900 <= year && year <= 2100 {
            Some(ChineseYear(year))
        } else {
            None
        }
    }

    /// The number of the year.
    pub fn get(self) -> (year: i32)
        ensures
            year == self.0,
    {
        self.0
    }
}

impl ChineseMonth {
    /// One of the twelve months, leap or not, else nothing.
    pub fn new(month: u8, leap: bool) -> (made: Option<Self>)
        ensures
            made is Some <==> 1 <= month <= 12,
            made matches Some(m) ==> m.0 == month && m.1 == leap,
    {
        if 1 <= month && month <= 12 {
            Some(ChineseMonth(month, leap))
        } else {
            None
        }
    }

    /// The number of the month.
    pub fn month(self) -> (month: u8)
        ensures
            month == self.0,
    {
        self.0
    }

    /// Whether it is a leap month.
    pub fn leap(self) -> (leap: bool)
        ensures
            leap == self.1,
    {
        self.1
    }
}

impl ChineseDay {
    /// One of the thirty days a month can have, else nothing.
    pub fn new(day: u8) -> (made: Option<Self>)
        ensures
            made is Some <==> 1 <= day <= 30,
            made matches Some(d) ==> d.0 == day,
    {
        if 1 <= day && day <= 30 {
            Some(ChineseDay(day))
        } else {
            None
        }
    }

    /// The number of the day.
    pub fn get(self) -> (day: u8)
        ensures
            day == self.0,
    {
        self.0
    }
}

} // verus!
