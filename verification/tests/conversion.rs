use chrono::{Datelike, NaiveDate};
use nongli::chinese_date::{
    days_of_chinese_month, is_long_month, leap_month, ordinal_month, ChineseDate, ChineseDay,
    ChineseMonth, ChineseYear,
};
use nongli::data::{CHUNJIE, DATA};
use nongli::tables::{chunjie, data};
use nongli::year_data::{leap_of_word, short_or_long, word_bitmap, YearRecord};
use nongli::{days_of_year, is_leap_year};

fn chinese_of(year: i32, month: u32, day: u32) -> Option<ChineseDate> {
    let date = NaiveDate::from_ymd_opt(year, month, day).unwrap();
    ChineseDate::from_gregorian(date.year(), date.ordinal0())
}

fn gregorian_of(date: ChineseDate) -> NaiveDate {
    let (year, day_of_year) = date.to_gregorian();
    NaiveDate::from_yo_opt(year, day_of_year as u32 + 1).unwrap()
}

fn parts(date: ChineseDate) -> (i32, u8, bool, u8) {
    (date.year(), date.month(), date.leap(), date.day())
}

#[test]
fn chinese_date_test() {
    #[allow(clippy::type_complexity)]
    const EXAMPLES: &[((i32, u32, u32), (i32, u8, bool, u8))] = &[
        ((1970, 1, 1), (1969, 11, false, 24)),
        ((2023, 1, 1), (2022, 12, false, 10)),
        ((2023, 1, 22), (2023, 1, false, 1)),
        ((2023, 2, 20), (2023, 2, false, 1)),
        ((2023, 3, 22), (2023, 2, true, 1)),
        ((2023, 4, 20), (2023, 3, false, 1)),
        ((2023, 10, 15), (2023, 9, false, 1)),
    ];
    for ((year, month, day), (ch_year, ch_month, ch_leap, ch_day)) in EXAMPLES.iter().copied() {
        let gregorian_date = NaiveDate::from_ymd_opt(year, month, day).unwrap();
        let chinese_date = ChineseDate::new(ch_year, ch_month, ch_leap, ch_day).unwrap();
        assert_eq!(chinese_of(year, month, day).unwrap(), chinese_date);
        assert_eq!(gregorian_of(chinese_date), gregorian_date);
    }
}

#[test]
fn date_of_the_thirtieth_of_october_2023() {
    let chinese_date = ChineseDate::new(2023, 9, false, 16).unwrap();
    assert_eq!(chinese_of(2023, 10, 30), Some(chinese_date));
    assert_eq!(gregorian_of(chinese_date), NaiveDate::from_ymd_opt(2023, 10, 30).unwrap());
}

#[test]
fn festival_days_of_known_years() {
    let known: &[((i32, u32, u32), (u8, u8))] = &[
        ((2023, 9, 29), (8, 15)),
        ((2024, 9, 17), (8, 15)),
        ((2022, 9, 10), (8, 15)),
        ((2021, 9, 21), (8, 15)),
        ((2020, 10, 1), (8, 15)),
        ((2019, 9, 13), (8, 15)),
        ((2018, 9, 24), (8, 15)),
        ((2017, 10, 4), (8, 15)),
        ((2000, 9, 12), (8, 15)),
        ((2025, 10, 6), (8, 15)),
        ((2023, 6, 22), (5, 5)),
        ((2024, 6, 10), (5, 5)),
        ((2022, 6, 3), (5, 5)),
        ((2021, 6, 14), (5, 5)),
        ((2020, 6, 25), (5, 5)),
        ((2025, 5, 31), (5, 5)),
    ];
    for ((year, month, day), (ch_month, ch_day)) in known.iter().copied() {
        let date = chinese_of(year, month, day).unwrap();
        assert_eq!(parts(date), (year, ch_month, false, ch_day));
    }
}

#[test]
fn new_year_days_of_known_years() {
    let known: &[(i32, u32, u32)] = &[
        (1900, 1, 31),
        (1901, 2, 19),
        (1950, 2, 17),
        (1970, 2, 6),
        (1984, 2, 2),
        (2000, 2, 5),
        (2008, 2, 7),
        (2020, 1, 25),
        (2023, 1, 22),
        (2024, 2, 10),
        (2025, 1, 29),
        (2033, 1, 31),
        (2050, 1, 23),
        (2100, 2, 9),
    ];
    for (year, month, day) in known.iter().copied() {
        let first = ChineseDate::new(year, 1, false, 1).unwrap();
        assert_eq!(gregorian_of(first), NaiveDate::from_ymd_opt(year, month, day).unwrap());
        assert_eq!(first.ordinal(), 0);
        let ordinal0 = NaiveDate::from_ymd_opt(year, month, day).unwrap().ordinal0();
        assert_eq!(chunjie(year), Some(ordinal0 as u8));
    }
}

#[test]
fn every_chinese_date_comes_back_from_its_gregorian_day() {
    let mut count = 0u32;
    for year in 1900..=2100 {
        for month in 1..=12u8 {
            for leap in [false, true] {
                for day in 1..=30u8 {
                    let Some(date) = ChineseDate::new(year, month, leap, day) else {
                        continue;
                    };
                    count += 1;
                    let (gregorian_year, day_of_year) = date.to_gregorian();
                    assert!(u32::from(day_of_year) < u32::from(days_of_year(gregorian_year)));
                    let back = ChineseDate::from_gregorian(gregorian_year, day_of_year as u32);
                    if gregorian_year <= 2100 {
                        assert_eq!(back, Some(date));
                    } else {
                        assert_eq!(year, 2100);
                        assert_eq!(back, None);
                    }
                }
            }
        }
    }
    // From 31 January 1900 to 28 January 2101, the day before the new year.
    let first = NaiveDate::from_ymd_opt(1900, 1, 31).unwrap();
    let end = NaiveDate::from_ymd_opt(2101, 1, 29).unwrap();
    assert_eq!(i64::from(count), (end - first).num_days());
}

#[test]
fn last_days_of_2100_fall_in_2101() {
    let date = ChineseDate::new(2100, 12, false, 29).unwrap();
    assert_eq!(date.to_gregorian(), (2101, 27));
    assert_eq!(ChineseDate::from_gregorian(2101, 27), None);
    let last_of_2100 = chinese_of(2100, 12, 31).unwrap();
    assert_eq!(parts(last_of_2100), (2100, 12, false, 1));
    assert_eq!(last_of_2100.to_gregorian(), (2100, 364));
}

#[test]
fn every_gregorian_day_comes_back_and_follows_the_day_before() {
    let mut date = NaiveDate::from_ymd_opt(1900, 1, 31).unwrap();
    let last = NaiveDate::from_ymd_opt(2100, 12, 31).unwrap();
    let mut before: Option<ChineseDate> = None;
    while date <= last {
        let chinese = ChineseDate::from_gregorian(date.year(), date.ordinal0()).unwrap();
        assert_eq!(gregorian_of(chinese), date);
        if let Some(before) = before {
            if chinese.day() == 1 {
                let length = days_of_chinese_month(before.chinese_year(), before.chinese_month());
                assert_eq!(Some(before.day()), length);
                if chinese.year() == before.year() {
                    assert_eq!(chinese.ordinal(), before.ordinal() + 1);
                    let slot_before =
                        ordinal_month(before.year(), before.month(), before.leap()).unwrap();
                    let slot =
                        ordinal_month(chinese.year(), chinese.month(), chinese.leap()).unwrap();
                    assert_eq!(slot, slot_before + 1);
                } else {
                    assert_eq!(chinese.year(), before.year() + 1);
                    assert_eq!((chinese.month(), chinese.leap()), (1, false));
                    assert_eq!(chinese.ordinal(), 0);
                }
            } else {
                assert_eq!(
                    parts(chinese),
                    (before.year(), before.month(), before.leap(), before.day() + 1)
                );
                assert_eq!(chinese.ordinal(), before.ordinal() + 1);
            }
        }
        before = Some(chinese);
        date = date.succ_opt().unwrap();
    }
}

#[test]
fn leap_dates_exist_only_in_the_leap_month() {
    for year in 1900..=2100 {
        let leap = leap_month(ChineseYear(year));
        for month in 1..=12u8 {
            let made = ChineseDate::new(year, month, true, 1);
            assert_eq!(made.is_some(), month == leap, "{year} {month}");
        }
    }
    assert_eq!(leap_month(ChineseYear(2023)), 2);
    assert_eq!(leap_month(ChineseYear(2024)), 0);
    assert_eq!(leap_month(ChineseYear(2025)), 6);
    assert_eq!(leap_month(ChineseYear(2033)), 11);
    assert_eq!(leap_month(ChineseYear(1899)), 0);
    assert_eq!(leap_month(ChineseYear(2101)), 0);
    assert!(ChineseDate::new(2023, 2, true, 1).is_some());
    assert!(ChineseDate::new(2023, 3, true, 1).is_none());
    assert!(ChineseDate::new(2024, 2, true, 1).is_none());
}

#[test]
fn days_before_the_new_year_of_1900_have_no_date() {
    assert_eq!(ChineseDate::from_gregorian(1900, 0), None);
    assert_eq!(ChineseDate::from_gregorian(1900, 29), None);
    let first = ChineseDate::from_gregorian(1900, 30).unwrap();
    assert_eq!(parts(first), (1900, 1, false, 1));
    assert_eq!(ChineseDate::from_gregorian(1899, 200), None);
    assert_eq!(ChineseDate::from_gregorian(2101, 200), None);
    assert_eq!(ChineseDate::from_gregorian(i32::MIN, 0), None);
    assert_eq!(ChineseDate::from_gregorian(i32::MAX, u32::MAX), None);
    assert_eq!(ChineseDate::from_gregorian(2023, u32::MAX), None);
    assert_eq!(ChineseDate::from_gregorian(2023, 65536 + 21), None);
}

#[test]
fn a_day_past_the_end_of_the_gregorian_year_is_counted_on() {
    // Chinese year 2023 has 384 days and begins on day 21 of 2023.
    assert_eq!(ChineseDate::from_gregorian(2023, 21 + 383).map(parts), Some((2023, 12, false, 30)));
    assert_eq!(ChineseDate::from_gregorian(2023, 21 + 384), None);
}

#[test]
fn dates_that_do_not_exist_are_refused() {
    assert!(ChineseDate::new(1899, 1, false, 1).is_none());
    assert!(ChineseDate::new(2101, 1, false, 1).is_none());
    assert!(ChineseDate::new(2023, 0, false, 1).is_none());
    assert!(ChineseDate::new(2023, 13, false, 1).is_none());
    assert!(ChineseDate::new(2023, 1, false, 0).is_none());
    assert!(ChineseDate::new(2023, 1, false, 31).is_none());
    // The first month of 2023 has 29 days, the leap second month 29, the
    // second 30.
    assert!(ChineseDate::new(2023, 1, false, 29).is_some());
    assert!(ChineseDate::new(2023, 1, false, 30).is_none());
    assert!(ChineseDate::new(2023, 2, false, 30).is_some());
    assert!(ChineseDate::new(2023, 2, true, 29).is_some());
    assert!(ChineseDate::new(2023, 2, true, 30).is_none());
}

#[test]
fn parts_of_a_date() {
    let date = ChineseDate::new(2023, 2, true, 5).unwrap();
    assert_eq!(parts(date), (2023, 2, true, 5));
    assert_eq!(date.chinese_year(), ChineseYear(2023));
    assert_eq!(date.chinese_month(), ChineseMonth(2, true));
    assert_eq!(date.chinese_day(), ChineseDay(5));
    assert_eq!(date.chinese_year().get(), 2023);
    assert_eq!(date.chinese_month().month(), 2);
    assert!(date.chinese_month().leap());
    assert_eq!(date.chinese_day().get(), 5);
    assert_eq!(ChineseYear::new(1900), Some(ChineseYear(1900)));
    assert_eq!(ChineseYear::new(2100), Some(ChineseYear(2100)));
    assert_eq!(ChineseYear::new(1899), None);
    assert_eq!(ChineseYear::new(2101), None);
    assert_eq!(ChineseMonth::new(12, true), Some(ChineseMonth(12, true)));
    assert_eq!(ChineseMonth::new(0, false), None);
    assert_eq!(ChineseMonth::new(13, false), None);
    assert_eq!(ChineseDay::new(30), Some(ChineseDay(30)));
    assert_eq!(ChineseDay::new(0), None);
    assert_eq!(ChineseDay::new(31), None);
}

#[test]
fn ordinals_in_a_leap_year() {
    // 2023: months of 29, 30, leap 29, 29, 30, 30, 29, 30, 30, 29, 30, 29, 30.
    assert_eq!(ChineseDate::new(2023, 1, false, 1).unwrap().ordinal(), 0);
    assert_eq!(ChineseDate::new(2023, 2, false, 1).unwrap().ordinal(), 29);
    assert_eq!(ChineseDate::new(2023, 2, true, 1).unwrap().ordinal(), 59);
    assert_eq!(ChineseDate::new(2023, 3, false, 1).unwrap().ordinal(), 88);
    assert_eq!(ChineseDate::new(2023, 12, false, 30).unwrap().ordinal(), 383);
    assert_eq!(ChineseDate::from_ordinal(2023, 59).map(parts), Some((2023, 2, true, 1)));
    assert_eq!(ChineseDate::from_ordinal(2023, 58).map(parts), Some((2023, 2, false, 30)));
    assert_eq!(ChineseDate::from_ordinal(2023, 383).map(parts), Some((2023, 12, false, 30)));
    assert_eq!(ChineseDate::from_ordinal(2023, 384), None);
    assert_eq!(ChineseDate::from_ordinal(2024, 353).map(parts), Some((2024, 12, false, 29)));
    assert_eq!(ChineseDate::from_ordinal(2024, 354), None);
    assert_eq!(ChineseDate::from_ordinal(1899, 0), None);
    assert_eq!(ChineseDate::from_ordinal(2023, u16::MAX), None);
}

#[test]
fn slots_and_lengths_of_months() {
    assert_eq!(ordinal_month(2023, 1, false), Some(0));
    assert_eq!(ordinal_month(2023, 2, false), Some(1));
    assert_eq!(ordinal_month(2023, 2, true), Some(2));
    assert_eq!(ordinal_month(2023, 3, false), Some(3));
    assert_eq!(ordinal_month(2023, 12, false), Some(12));
    assert_eq!(ordinal_month(2023, 3, true), None);
    assert_eq!(ordinal_month(2024, 12, false), Some(11));
    assert_eq!(ordinal_month(2024, 12, true), None);
    assert_eq!(ordinal_month(2024, 0, false), None);
    assert_eq!(ordinal_month(2024, 13, false), None);
    assert_eq!(ordinal_month(1899, 1, false), None);
    assert_eq!(is_long_month(2023, 1, false), Some(false));
    assert_eq!(is_long_month(2023, 2, false), Some(true));
    assert_eq!(is_long_month(2023, 2, true), Some(false));
    assert_eq!(is_long_month(2023, 12, false), Some(true));
    assert_eq!(is_long_month(2023, 5, true), None);
    assert_eq!(is_long_month(2101, 5, false), None);
    assert_eq!(days_of_chinese_month(ChineseYear(2023), ChineseMonth(2, true)), Some(29));
    assert_eq!(days_of_chinese_month(ChineseYear(2023), ChineseMonth(2, false)), Some(30));
    assert_eq!(days_of_chinese_month(ChineseYear(2023), ChineseMonth(4, true)), None);
}

#[test]
fn decoding_a_year() {
    assert_eq!(data(2023), Some(0x05b52));
    assert_eq!(data(1900), Some(DATA[0]));
    assert_eq!(data(2100), Some(DATA[200]));
    assert_eq!(data(1899), None);
    assert_eq!(data(2101), None);
    assert_eq!(chunjie(2023), Some(21));
    assert_eq!(chunjie(1900), Some(CHUNJIE[0]));
    assert_eq!(chunjie(2101), None);
    assert_eq!(leap_of_word(0x05b52), 2);
    // 2023: the months 1 to 12 are 0101 1011 0101; the short leap month
    // goes in after the second.
    assert_eq!(word_bitmap(0x05b52), 0b0_1001_1011_0101);
    assert_eq!(short_or_long(2023), Some(0b0_1001_1011_0101));
    // 2024 has no leap month: the twelve bits stand before an empty slot.
    assert_eq!(data(2024), Some(0x04b60));
    assert_eq!(short_or_long(2024), Some(0b0_1001_0110_1100));
    // 2017 has a long leap sixth month.
    assert_eq!(data(2017), Some(0x15176));
    assert_eq!(short_or_long(2017), Some(0b0_1010_0101_0111));
    assert_eq!(short_or_long(1899), None);
    let record = YearRecord::decode(2023).unwrap();
    assert_eq!(record.leap_month(), 2);
    assert_eq!(record.slot_count(), 13);
    let lengths: Vec<u16> = (0..13).map(|slot| record.slot_days(slot)).collect();
    assert_eq!(lengths, vec![29, 30, 29, 29, 30, 30, 29, 30, 30, 29, 30, 29, 30]);
    let record = YearRecord::decode(2024).unwrap();
    assert_eq!(record.leap_month(), 0);
    assert_eq!(record.slot_count(), 12);
    assert_eq!(record.slot_days(12), 29);
    assert!(YearRecord::decode(1899).is_none());
    assert!(YearRecord::decode(2101).is_none());
}

#[test]
fn leap_years_of_the_gregorian_calendar() {
    assert!(is_leap_year(2000));
    assert!(!is_leap_year(1900));
    assert!(!is_leap_year(2100));
    assert!(is_leap_year(2024));
    assert!(is_leap_year(-4));
    assert_eq!(days_of_year(2024), 366);
    assert_eq!(days_of_year(2023), 365);
}
