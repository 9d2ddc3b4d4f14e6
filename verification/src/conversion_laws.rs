//! What the conversions between the two calendars guarantee: each undoes
//! the other, every day the tables cover has a Chinese date, and the
//! Chinese dates of consecutive days are consecutive.

use vstd::prelude::*;

use crate::chinese_date::{
    gregorian_to_ordinal, gregorian_to_parts, lemma_days_before_grows, lemma_days_before_step,
    lemma_ordinal_to_parts_valid, lemma_parts_ordinal_inverts, lemma_slot_at_finds,
    lemma_slot_at_holds, lemma_slot_names_month, parts_ordinal, parts_to_gregorian, parts_valid,
    slot_at, DateParts,
};
use crate::spec_days_of_year;
use crate::tables::{
    lemma_year_days_bounds, lemma_year_fits, new_year_day, year_days, year_word,
};
use crate::year_data::{days_before, in_range, slot_count, slot_days, slot_of, word_leap};

verus! {

/// The day after day `day_of_year` (from 0) of Gregorian year `year`.
pub open spec fn next_day(year: int, day_of_year: int) -> (int, int) {
    if day_of_year + 1 < spec_days_of_year(year) {
        (year, day_of_year + 1)
    } else {
        (year + 1, 0)
    }
}

/// `after` is the day after `before` in the same month.
pub open spec fn next_in_month(before: DateParts, after: DateParts) -> bool {
    &&& after.year == before.year
    &&& after.month == before.month
    &&& after.leap == before.leap
    &&& after.day == before.day + 1
}

/// `before` is the last day of its month and `after` the first day of the
/// month that follows it: the next month of the same year, or the first
/// month of the next year.
pub open spec fn opens_next_month(before: DateParts, after: DateParts) -> bool {
    let word = year_word(before.year);
    let slot = slot_of(word, before.month, before.leap);
    &&& before.day == slot_days(word, slot)
    &&& after.day == 1
    &&& if slot + 1 < slot_count(word) {
        after.year == before.year && slot_of(word, after.month, after.leap) == slot + 1
    } else {
        after.year == before.year + 1 && after.month == 1 && !after.leap
    }
}

/// Converting a Chinese date to a Gregorian day and back gives the date
/// again, for every date whose Gregorian day lies in a year of the tables.
/// (The last days of Chinese year 2100 fall in 2101.)
pub proof fn law_chinese_round_trip(parts: DateParts)
    requires
        parts_valid(parts),
        parts_to_gregorian(parts).0 <= 2100,
    ensures
        gregorian_to_parts(parts_to_gregorian(parts).0, parts_to_gregorian(parts).1) == Some(
            parts,
        ),
{
    lemma_year_fits(parts.year);
    lemma_parts_ordinal_inverts(parts);
    if parts_to_gregorian(parts).0 != parts.year {
        lemma_year_fits(parts.year + 1);
    }
}

/// The Gregorian day of a Chinese date is a day of its year, and lies in
/// the year of the Chinese date or in the next.
pub proof fn law_gregorian_day_exists(parts: DateParts)
    requires
        parts_valid(parts),
    ensures
        parts.year <= parts_to_gregorian(parts).0 <= parts.year + 1,
        0 <= parts_to_gregorian(parts).1 < spec_days_of_year(parts_to_gregorian(parts).0),
{
    lemma_year_fits(parts.year);
    lemma_parts_ordinal_inverts(parts);
    lemma_year_days_bounds(year_word(parts.year));
}

/// Converting a Gregorian day to a Chinese date and back gives the day
/// again.
pub proof fn law_gregorian_round_trip(year: int, day_of_year: int)
    requires
        0 <= day_of_year < spec_days_of_year(year),
        gregorian_to_parts(year, day_of_year) is Some,
    ensures
        parts_valid(gregorian_to_parts(year, day_of_year)->0),
        parts_to_gregorian(gregorian_to_parts(year, day_of_year)->0) == (year, day_of_year),
{
    let (chinese_year, ordinal) = gregorian_to_ordinal(year, day_of_year)->0;
    lemma_year_fits(year);
    lemma_year_fits(chinese_year);
    lemma_ordinal_to_parts_valid(chinese_year, ordinal);
}

/// Every day from the new year of 1900 to the end of 2100 has a Chinese
/// date, and no other day has one.
pub proof fn law_covered_days(year: int, day_of_year: int)
    requires
        0 <= day_of_year < spec_days_of_year(year),
    ensures
        gregorian_to_parts(year, day_of_year) is Some <==> in_range(year) && !(year == 1900
            && day_of_year < new_year_day(1900)),
{
    lemma_year_fits(1900);
    if in_range(year) {
        lemma_year_fits(year);
        lemma_year_days_bounds(year_word(year));
        if year > 1900 {
            lemma_year_fits(year - 1);
        }
    }
}

/// Of two consecutive Gregorian days with Chinese dates, the second date
/// is the next day of the same month, or the first day of the month that
/// follows. Counted within the Chinese year, the day's place goes up by
/// one, or falls back to 0 as a new year begins.
pub proof fn law_consecutive_days(year: int, day_of_year: int)
    requires
        0 <= day_of_year < spec_days_of_year(year),
        gregorian_to_parts(year, day_of_year) is Some,
        gregorian_to_parts(next_day(year, day_of_year).0, next_day(year, day_of_year).1) is Some,
    ensures
        ({
            let before = gregorian_to_parts(year, day_of_year)->0;
            let after = gregorian_to_parts(
                next_day(year, day_of_year).0,
                next_day(year, day_of_year).1,
            )->0;
            &&& next_in_month(before, after) || opens_next_month(before, after)
            &&& if after.year == before.year {
                parts_ordinal(after) == parts_ordinal(before) + 1
            } else {
                &&& after.year == before.year + 1
                &&& parts_ordinal(after) == 0
                &&& parts_ordinal(before) == year_days(before.year) - 1
            }
        }),
{
    let (next_year, next_of_year) = next_day(year, day_of_year);
    let (year_a, ordinal_a) = gregorian_to_ordinal(year, day_of_year)->0;
    let (year_b, ordinal_b) = gregorian_to_ordinal(next_year, next_of_year)->0;
    let before = gregorian_to_parts(year, day_of_year)->0;
    let after = gregorian_to_parts(next_year, next_of_year)->0;
    lemma_year_fits(year);
    lemma_year_fits(next_year);
    lemma_year_fits(year_a);
    lemma_year_fits(year_b);
    lemma_ordinal_to_parts_valid(year_a, ordinal_a);
    lemma_ordinal_to_parts_valid(year_b, ordinal_b);
    let word = year_word(year_a);
    let slot = slot_at(word, ordinal_a, 0);
    lemma_slot_at_holds(word, ordinal_a, 0);
    lemma_slot_names_month(word, slot);
    lemma_days_before_step(word, slot);
    if year_b == year_a {
        assert(ordinal_b == ordinal_a + 1);
        if ordinal_b < days_before(word, slot + 1) {
            lemma_slot_at_finds(word, ordinal_b, slot, 0);
            assert(next_in_month(before, after));
        } else {
            lemma_slot_at_holds(word, ordinal_b, 0);
            lemma_days_before_step(word, slot + 1);
            lemma_slot_at_finds(word, ordinal_b, slot + 1, 0);
            lemma_slot_names_month(word, slot + 1);
            assert(opens_next_month(before, after));
        }
    } else {
        assert(year_b == year_a + 1);
        assert(ordinal_b == 0);
        assert(ordinal_a == year_days(year_a) - 1);
        let word_b = year_word(year_b);
        lemma_days_before_step(word_b, 0);
        lemma_slot_at_finds(word_b, 0, 0, 0);
        if slot + 1 < slot_count(word) {
            lemma_days_before_step(word, slot + 1);
            lemma_days_before_grows(word, slot + 2, slot_count(word));
        }
        assert(opens_next_month(before, after));
    }
}

/// A leap date exists only in the leap month of its year. In a year
/// without a leap month no leap date exists.
pub proof fn law_leap_month_only(parts: DateParts)
    requires
        parts_valid(parts),
        parts.leap,
    ensures
        parts.month == word_leap(year_word(parts.year)),
        word_leap(year_word(parts.year)) != 0,
{
}

} // verus!
