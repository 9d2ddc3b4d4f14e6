use chrono::{Datelike, NaiveDate};
use nongli::calendar::{Calendar, Cell, Options};
use nongli::chinese_date::ChineseDate;
use nongli::civil::{CivilDate, MAX_YEAR, MIN_YEAR};
use nongli::date::{Day, Month};
use nongli::festivals::Festival;
use nongli::iter::{Months, Weekdays};
use nongli::language::Language;
use nongli::solar_term::SolarTerm;
use nongli::{days_of_month, is_weekend};

fn options(enable_chinese: bool, start_on_monday: bool, week_number: bool) -> Options {
    Options {
        color: false,
        enable_chinese,
        language: Language::English,
        start_on_monday,
        week_number,
    }
}

fn civil(date: NaiveDate) -> CivilDate {
    CivilDate { year: date.year(), month: date.month(), day: date.day() }
}

fn weekday(date: NaiveDate) -> Day {
    Day::from_number(date.weekday().num_days_from_sunday() as u8).unwrap()
}

fn rows_of(calendar: &Calendar) -> Vec<(u32, [Option<Cell>; 7])> {
    let mut rows = Vec::new();
    let mut iter = calendar.iter();
    while let Some(row) = iter.next() {
        rows.push(row);
    }
    assert_eq!(iter.next(), None);
    rows
}

#[test]
fn calendar_test() {
    let calendar = Calendar::new(
        2025,
        Month::January,
        NaiveDate::from_ymd_opt(2025, 1, 1).map(civil),
        options(true, false, true),
    )
    .unwrap();
    let mut array = [Option::<(NaiveDate, bool, bool, Option<ChineseDate>, Option<SolarTerm>)>::None; 35];
    for day in 1u32..=31 {
        let date = NaiveDate::from_ymd_opt(2025, 1, day).unwrap();
        array[day as usize + 2] = Some((
            date,
            is_weekend(weekday(date)),
            day == 1,
            ChineseDate::from_gregorian(date.year(), date.ordinal0()),
            SolarTerm::from_date(date.year(), date.month(), date.day()),
        ));
    }
    let rows = rows_of(&calendar);
    assert_eq!(rows.len(), 5);
    for ((week, cells), (expected_week, expected)) in
        rows.into_iter().zip([1u32, 2, 3, 4, 5].into_iter().zip(array.chunks(7)))
    {
        assert_eq!(week, expected_week);
        for (cell, expected) in cells.iter().zip(expected) {
            let shown = cell.map(|cell| {
                let date = NaiveDate::from_ymd_opt(cell.date.year, cell.date.month, cell.date.day);
                (date.unwrap(), cell.weekend, cell.today, cell.chinese_date, cell.solar_term)
            });
            assert_eq!(shown, *expected);
        }
    }
}

#[test]
fn rows_from_monday_with_week_numbers() {
    // February 2026 begins on a Sunday.
    let calendar = Calendar::new(2026, Month::February, None, options(false, true, true)).unwrap();
    let rows = rows_of(&calendar);
    let days: Vec<Vec<Option<u32>>> = rows
        .iter()
        .map(|(_, cells)| cells.iter().map(|cell| cell.map(|cell| cell.date.day)).collect())
        .collect();
    assert_eq!(days[0], vec![None, None, None, None, None, None, Some(1)]);
    assert_eq!(days[1], (2..=8).map(Some).collect::<Vec<_>>());
    assert_eq!(days[4], vec![Some(23), Some(24), Some(25), Some(26), Some(27), Some(28), None]);
    assert_eq!(rows.len(), 5);
    let weeks: Vec<u32> = rows.iter().map(|(week, _)| *week).collect();
    assert_eq!(weeks, vec![5, 6, 7, 8, 9]);
    for (_, cells) in &rows {
        for cell in cells.iter().flatten() {
            assert!(!cell.today);
            assert_eq!(cell.chinese_date, None);
            assert_eq!(cell.solar_term, None);
            assert_eq!(cell.weekend, cell.date.day % 7 == 0 || cell.date.day % 7 == 1);
        }
    }
}

#[test]
fn rows_from_sunday_number_the_week_of_their_monday() {
    // February 2026 begins on a Sunday: its ISO week is 5, that of the
    // Monday after it 6.
    let calendar = Calendar::new(2026, Month::February, None, options(false, false, true)).unwrap();
    let weeks: Vec<u32> = rows_of(&calendar).iter().map(|(week, _)| *week).collect();
    assert_eq!(weeks, vec![6, 7, 8, 9]);
    // May 2026 ends on a Sunday, the 31st, alone in its row.
    let calendar = Calendar::new(2026, Month::May, None, options(false, false, true)).unwrap();
    let rows = rows_of(&calendar);
    let (week, cells) = rows.last().unwrap();
    assert_eq!(cells[0].map(|cell| cell.date.day), Some(31));
    assert!(cells[1..].iter().all(|cell| cell.is_none()));
    assert_eq!(*week, 23);
    // January 2021 begins on a Friday of ISO week 53.
    let calendar = Calendar::new(2021, Month::January, None, options(false, false, true)).unwrap();
    assert_eq!(rows_of(&calendar)[0].0, 53);
    let calendar = Calendar::new(2021, Month::January, None, options(false, false, false)).unwrap();
    assert!(rows_of(&calendar).iter().all(|(week, _)| *week == 0));
}

#[test]
fn the_last_day_chrono_can_hold_has_no_day_after() {
    let last = CivilDate { year: MAX_YEAR, month: 12, day: 31 };
    assert!(last.is_real());
    assert_eq!(last.next(), None);
    assert_eq!(
        CivilDate { year: MAX_YEAR, month: 12, day: 30 }.next(),
        Some(last)
    );
    let calendar = Calendar::new(MAX_YEAR, Month::December, None, options(true, false, true)).unwrap();
    let rows = rows_of(&calendar);
    let days: usize = rows.iter().map(|(_, cells)| cells.iter().flatten().count()).sum();
    assert_eq!(days, 31);
    assert_eq!(calendar.succ(), None);
    assert_eq!(Calendar::new(MAX_YEAR + 1, Month::January, None, options(true, false, true)), None);
    assert_eq!(Calendar::new(MIN_YEAR - 1, Month::January, None, options(true, false, true)), None);
    let first = Calendar::new(MIN_YEAR, Month::January, None, options(true, false, true)).unwrap();
    assert_eq!(first.pred(), None);
    assert_eq!(first.succ().unwrap().month, Month::February);
}

#[test]
fn cells_show_today_and_the_chinese_calendar() {
    let today = CivilDate { year: 2023, month: 10, day: 25 };
    let calendar = Calendar::new(2023, Month::October, Some(today), options(true, false, false)).unwrap();
    let mut seen = 0;
    for (_, cells) in rows_of(&calendar) {
        for (column, cell) in cells.iter().enumerate() {
            let Some(cell) = cell else { continue };
            seen += 1;
            assert_eq!(cell.date.year, 2023);
            assert_eq!(cell.date.month, 10);
            let date = NaiveDate::from_ymd_opt(2023, 10, cell.date.day).unwrap();
            assert_eq!(column as u32, date.weekday().num_days_from_sunday());
            assert_eq!(cell.today, cell.date.day == 25);
            assert_eq!(cell.weekend, column == 0 || column == 6);
            assert_eq!(cell.chinese_date, ChineseDate::from_gregorian(2023, date.ordinal0()));
            assert_eq!(cell.solar_term, SolarTerm::from_date(2023, 10, cell.date.day));
            if cell.date.day == 15 {
                assert_eq!(cell.chinese_date, ChineseDate::new(2023, 9, false, 1));
            }
            if cell.date.day == 25 {
                assert_eq!(cell.solar_term, Some(SolarTerm::Shuangjiang));
            }
        }
    }
    assert_eq!(seen, 31);
    // Today in another month marks no cell.
    let calendar = Calendar::new(2023, Month::November, Some(today), options(true, false, false)).unwrap();
    assert!(rows_of(&calendar).iter().all(|(_, cells)| cells.iter().flatten().all(|cell| !cell.today)));
}

#[test]
fn calendars_before_and_after() {
    let calendar = Calendar::new(2024, Month::January, None, options(false, false, false)).unwrap();
    assert_eq!(calendar.year(), 2024);
    assert_eq!(calendar.month(), Month::January);
    assert_eq!(calendar.today(), None);
    assert_eq!(calendar.options(), options(false, false, false));
    let before = calendar.pred().unwrap();
    assert_eq!((before.year(), before.month), (2023, Month::December));
    let after = before.succ().unwrap();
    assert_eq!(after, calendar);
    let after = calendar.succ().unwrap();
    assert_eq!((after.year(), after.month), (2024, Month::February));
    let title = calendar.title();
    assert_eq!((title.year, title.month, title.enable_chinese), (2024, Month::January, false));
}

#[test]
fn days_as_chrono_sees_them() {
    let mut date = NaiveDate::from_ymd_opt(2023, 12, 25).unwrap();
    for _ in 0..400 {
        let day = civil(date);
        assert!(day.is_real());
        assert_eq!(day.ordinal0(), date.ordinal0());
        assert_eq!(day.weekday(), Some(weekday(date)));
        assert_eq!(day.iso_week(), Some(date.iso_week().week()));
        assert_eq!(day.next(), date.succ_opt().map(civil));
        date = date.succ_opt().unwrap();
    }
    for (year, month, day) in [(2023, 2, 29), (2023, 4, 31), (2023, 0, 1), (2023, 13, 1), (2023, 1, 0), (MAX_YEAR + 1, 1, 1), (MIN_YEAR - 1, 1, 1), (2023, 256 + 1, 1)] {
        let date = CivilDate { year, month, day };
        assert!(!date.is_real());
        assert_eq!(NaiveDate::from_ymd_opt(year, month, day), None);
        assert_eq!(date.weekday(), None);
        assert_eq!(date.iso_week(), None);
    }
    assert!(CivilDate { year: 2024, month: 2, day: 29 }.is_real());
    assert_eq!(CivilDate { year: 2023, month: 10, day: 3 }.weekday(), Some(Day::Tuesday));
    assert_eq!(CivilDate { year: 2021, month: 1, day: 3 }.iso_week(), Some(53));
    assert_eq!(CivilDate { year: 2021, month: 1, day: 4 }.iso_week(), Some(1));
}

#[test]
fn weekends_and_lengths_of_months() {
    assert!(is_weekend(Day::Sunday));
    assert!(is_weekend(Day::Saturday));
    assert!(!is_weekend(Day::Monday));
    assert!(!is_weekend(Day::Friday));
    assert_eq!(days_of_month(2024, Month::February), 29);
    assert_eq!(days_of_month(1900, Month::February), 28);
    assert_eq!(days_of_month(-4, Month::February), 29);
    assert_eq!(days_of_month(2023, Month::November), 30);
    assert_eq!(days_of_month(2023, Month::August), 31);
    assert_eq!(Month::January.pred(), Month::December);
    assert_eq!(Month::March.pred(), Month::February);
}

#[test]
fn months_and_weekdays_without_end() {
    let mut months = Months(Month::November);
    let taken: Vec<Month> = (0..4).map(|_| months.next().unwrap()).collect();
    assert_eq!(taken, vec![Month::November, Month::December, Month::January, Month::February]);
    let mut days = Weekdays(Day::Friday);
    let taken: Vec<Day> = (0..4).map(|_| days.next().unwrap()).collect();
    assert_eq!(taken, vec![Day::Friday, Day::Saturday, Day::Sunday, Day::Monday]);
}

#[test]
fn festivals_of_2023() {
    let festival = |month, leap, day| Festival::from_chinese_date(ChineseDate::new(2023, month, leap, day).unwrap());
    assert_eq!(festival(1, false, 1), Some(Festival::Chunjie));
    assert_eq!(festival(1, false, 15), Some(Festival::Yuanxiaojie));
    assert_eq!(festival(5, false, 5), Some(Festival::Duanwujie));
    assert_eq!(festival(8, false, 15), Some(Festival::Zhongqiujie));
    assert_eq!(festival(12, false, 23), Some(Festival::NorthernXiaonian));
    assert_eq!(festival(12, false, 24), Some(Festival::SouthernXiaonian));
    assert_eq!(festival(12, false, 30), Some(Festival::Chuxi));
    assert_eq!(festival(12, false, 29), None);
    assert_eq!(festival(2, true, 1), None);
    assert_eq!(festival(2, false, 1), None);
    assert_eq!(festival(5, false, 6), None);
    assert_eq!(festival(8, false, 16), None);
    // The twelfth month of 2024 has 29 days.
    let last = ChineseDate::new(2024, 12, false, 29).unwrap();
    assert_eq!(Festival::from_chinese_date(last), Some(Festival::Chuxi));
    // A leap month has no festival: 2025 has a leap sixth month, 2033 a
    // leap eleventh.
    let leap = ChineseDate::new(2025, 6, true, 15).unwrap();
    assert_eq!(Festival::from_chinese_date(leap), None);
}
