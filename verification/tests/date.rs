use nongli::date::{
    days_of_month, days_of_year, is_leap_year, unix_epoch, Date, Day, DayRange, Month, MonthRange,
    EPOCH_DAYS_END,
};
use nongli::date::Day::{Friday, Monday, Saturday, Sunday, Thursday, Tuesday, Wednesday};
use nongli::date::Month::{
    April, August, December, February, January, July, June, March, May, November, October,
    September,
};

#[test]
fn tests() {
    assert_eq!(unix_epoch().day_of_week(), Thursday);
    assert_eq!(Date::new(1970, February, 1).unwrap().day_of_week(), Sunday);
    assert_eq!(Date::new(1971, January, 1).unwrap().day_of_week(), Friday);
    assert_eq!(Date::new(2023, October, 3).unwrap().day_of_week(), Tuesday);
    for date in [
        Date::new(1970, February, 1).unwrap(),
        Date::new(1971, January, 1).unwrap(),
        Date::today().unwrap(),
    ] {
        assert_eq!(Date::from_unix_epoch(date.since_unix_epoch()), date);
    }
}

#[test]
fn leap_years_and_lengths() {
    assert!(is_leap_year(2000));
    assert!(!is_leap_year(1900));
    assert!(is_leap_year(2024));
    assert!(!is_leap_year(2023));
    assert_eq!(days_of_year(2024), 366);
    assert_eq!(days_of_year(2023), 365);
    assert_eq!(days_of_month(2024, February), 29);
    assert_eq!(days_of_month(2023, February), 28);
    assert_eq!(days_of_month(2023, April), 30);
    assert_eq!(days_of_month(2023, December), 31);
}

#[test]
fn month_numbers() {
    assert_eq!(Month::from_number(0), None);
    assert_eq!(Month::from_number(1), Some(January));
    assert_eq!(Month::from_number(12), Some(December));
    assert_eq!(Month::from_number(13), None);
    assert_eq!(March.as_number(), 3);
    assert_eq!(December.next(), January);
    assert_eq!(May.next(), June);
    let all = [
        January, February, March, April, May, June, July, August, September, October, November,
        December,
    ];
    for (i, month) in all.iter().enumerate() {
        assert_eq!(month.as_number() as usize, i + 1);
        assert_eq!(Month::from_number(i as u8 + 1), Some(*month));
    }
}

#[test]
fn day_numbers_and_offsets() {
    assert_eq!(Day::from_number(0), Some(Sunday));
    assert_eq!(Day::from_number(7), Some(Sunday));
    assert_eq!(Day::from_number(6), Some(Saturday));
    assert_eq!(Day::from_number(8), None);
    assert_eq!(Wednesday.as_number(), 3);
    assert_eq!(Saturday.next(), Sunday);
    assert_eq!(Monday.offset(1), Tuesday);
    assert_eq!(Monday.offset(-1), Sunday);
    assert_eq!(Monday.offset(-8), Sunday);
    assert_eq!(Thursday.offset(7000), Thursday);
    assert_eq!(Sunday.offset(i32::MIN), Day::from_number(((i32::MIN as i64).rem_euclid(7)) as u8).unwrap());
    assert_eq!(Sunday.offset(i32::MAX), Day::from_number((i32::MAX % 7) as u8).unwrap());
}

#[test]
fn ranges_yield_up_to_their_end() {
    let mut months = MonthRange::new(November, February);
    assert_eq!(months.from(), November);
    assert_eq!(months.to(), February);
    assert_eq!(months.next(), Some(November));
    assert_eq!(months.next(), Some(December));
    assert_eq!(months.next(), Some(January));
    assert_eq!(months.next(), None);
    assert_eq!(months.next(), None);
    let mut empty = MonthRange::new(May, May);
    assert_eq!(empty.next(), None);
    let mut days = DayRange::new(Friday, Monday);
    assert_eq!(days.from(), Friday);
    assert_eq!(days.to(), Monday);
    assert_eq!(days.next(), Some(Friday));
    assert_eq!(days.next(), Some(Saturday));
    assert_eq!(days.next(), Some(Sunday));
    assert_eq!(days.next(), None);
}

#[test]
fn dates_and_epoch_days() {
    assert_eq!(Date::new(1969, December, 31), None);
    assert_eq!(Date::new(2023, February, 29), None);
    assert!(Date::new(2024, February, 29).is_some());
    assert!(Date::new(2024, March, 0).is_some());
    let date = Date::new(2023, October, 3).unwrap();
    assert_eq!((date.year(), date.month(), date.day()), (2023, October, 3));
    assert_eq!(unix_epoch().since_unix_epoch(), 0);
    assert_eq!(Date::new(1970, January, 31).unwrap().since_unix_epoch(), 30);
    assert_eq!(Date::new(1970, March, 0).unwrap().since_unix_epoch(), 58);
    assert_eq!(Date::new(2000, March, 1).unwrap().since_unix_epoch(), 11017);
    assert_eq!(date.since_unix_epoch(), 19633);
    assert_eq!(Date::from_unix_epoch(0), unix_epoch());
    assert_eq!(Date::from_unix_epoch(19633), date);
    assert_eq!(Date::from_unix_epoch(11016), Date::new(2000, February, 29).unwrap());
    assert_eq!(
        Date::from_unix_epoch(EPOCH_DAYS_END - 1),
        Date::new(65535, December, 31).unwrap()
    );
    assert_eq!(Date::new(65535, December, 31).unwrap().since_unix_epoch(), EPOCH_DAYS_END - 1);
    assert_eq!(Date::from_unix_seconds(86399), Some(unix_epoch()));
    assert_eq!(Date::from_unix_seconds(86400), Date::new(1970, January, 2));
    assert_eq!(Date::from_unix_seconds(EPOCH_DAYS_END as u64 * 86400), None);
}

#[test]
fn dates_in_words() {
    assert_eq!(Date::new(2023, October, 3).unwrap().to_text(), "2023-10-3");
    assert_eq!(unix_epoch().to_text(), "1970-1-1");
    assert_eq!(Date::new(65535, December, 31).unwrap().to_text(), "65535-12-31");
    assert_eq!(January.name(), "January");
    assert_eq!(December.name(), "December");
    assert_eq!(Sunday.name(), "Sunday");
    assert_eq!(Saturday.name(), "Saturday");
    assert_eq!(Wednesday.name(), "Wednesday");
}
