//! The calendar of one month, laid out in rows of seven days.

use vstd::prelude::*;

use crate::chinese_date::{gregorian_to_parts, ChineseDate};
use crate::civil::{
    civil_exists, iso_week_number, weekday_number, CivilDate, MAX_YEAR, MIN_YEAR,
};
use crate::date::{month_of_number, spec_days_of_month, Day, Month};
use crate::days_of_month;
use crate::is_weekend;
use crate::language::{Language, MonthTitle};
use crate::solar_term::{term_on, SolarTerm};

verus! {

/// How a calendar is to be shown.
#[derive(Clone, Copy, Debug, PartialEq, Eq)]
pub struct Options {
    pub language: Language,
    pub enable_chinese: bool,
    pub start_on_monday: bool,
    pub week_number: bool,
    pub color: bool,
}

/// The calendar of one month of one year.
#[derive(Clone, Copy, Debug, PartialEq, Eq)]
pub struct Calendar {
    year: i32,
    pub month: Month,
    pub today: Option<CivilDate>,
    pub options: Options,
}

/// Goes through the rows of a calendar, from the row of a given day on.
#[derive(Clone, Debug)]
pub struct Iter<'a> {
    calendar: &'a Calendar,
    day: u8,
}

/// One day of a calendar.
#[derive(Clone, Copy, Debug, PartialEq, Eq)]
#[non_exhaustive]
pub struct Cell {
    pub date: CivilDate,
    pub today: bool,
    pub weekend: bool,
    pub chinese_date: Option<ChineseDate>,
    pub solar_term: Option<SolarTerm>,
}

/// The column of a day of the week (0 for Sunday) in a row that begins
/// with Monday or with Sunday.
pub open spec fn column_of(weekday: int, from_monday: bool) -> int {
    if from_monday {
        (weekday + 6) % 7
    } else {
        weekday
    }
}

/// Whether a day of the week (0 for Sunday) is the last of a row.
pub open spec fn ends_row(weekday: int, from_monday: bool) -> bool {
    if from_monday {
        weekday == 0
    } else {
        weekday == 6
    }
}

/// The last day of the row that begins with day `day` of a month: the
/// first day from `day` on that ends the week or the month.
pub open spec fn row_last_day(year: int, month: int, day: int, from_monday: bool) -> int
    decreases 31 - day,
{
    if day >= spec_days_of_month(year, month_of_number(month)) || day >= 31 || ends_row(
        weekday_number(year, month, day),
        from_monday,
    ) {
        day
    } else {
        row_last_day(year, month, day + 1, from_monday)
    }
}

/// Seven columns without a day.
pub open spec fn empty_row() -> Seq<Option<int>> {
    Seq::new(7, |column: int| None::<int>)
}

/// The day of the month that stands in each of the seven columns of a row,
/// once the days `first` to `last` have each been put in the column of
/// their day of the week.
pub open spec fn row_columns(
    year: int,
    month: int,
    first: int,
    last: int,
    from_monday: bool,
) -> Seq<Option<int>>
    decreases last - first + 1,
{
    if last < first {
        empty_row()
    } else {
        row_columns(year, month, first, last - 1, from_monday).update(
            column_of(weekday_number(year, month, last), from_monday),
            Some(last),
        )
    }
}

/// The first day that stands in a row, if any does.
pub open spec fn first_in_row(columns: Seq<Option<int>>) -> Option<int> {
    if columns[0] is Some {
        columns[0]
    } else if columns[1] is Some {
        columns[1]
    } else if columns[2] is Some {
        columns[2]
    } else if columns[3] is Some {
        columns[3]
    } else if columns[4] is Some {
        columns[4]
    } else if columns[5] is Some {
        columns[5]
    } else {
        columns[6]
    }
}

/// The ISO week of the day after a day, 0 where `chrono` cannot hold that
/// day.
pub open spec fn week_of_next(date: CivilDate) -> int {
    match date.spec_next() {
        Some(next) => iso_week_number(next.year as int, next.month as int, next.day as int),
        None => 0,
    }
}

/// The week number shown beside a row: 0 where none is asked for; else
/// the ISO week of the row's Monday; for a row from Sunday that has no
/// Monday, the ISO week of the day after its Sunday; else that of the
/// row's first day.
pub open spec fn row_week(
    year: int,
    month: int,
    columns: Seq<Option<int>>,
    week_number: bool,
    from_monday: bool,
) -> int {
    if !week_number {
        0
    } else if !from_monday && columns[1] is Some {
        iso_week_number(year, month, columns[1]->0)
    } else if !from_monday && columns[0] is Some {
        week_of_next(
            CivilDate { year: year as i32, month: month as u32, day: columns[0]->0 as u32 },
        )
    } else {
        match first_in_row(columns) {
            Some(day) => iso_week_number(year, month, day),
            None => 0,
        }
    }
}

/// A column shows the day that stands in it, or is empty when none does.
pub open spec fn column_shows(calendar: Calendar, cell: Option<Cell>, day: Option<int>) -> bool {
    match (cell, day) {
        (Some(cell), Some(day)) => calendar.shows(cell, day),
        (None, None) => true,
        _ => false,
    }
}

impl Calendar {
    /// The year.
    pub closed spec fn spec_year(&self) -> int {
        self.year as int
    }

    /// The month.
    pub closed spec fn spec_month(&self) -> Month {
        self.month
    }

    /// The day that counts as today, if one does.
    pub closed spec fn spec_today(&self) -> Option<CivilDate> {
        self.today
    }

    /// How the calendar is to be shown.
    pub closed spec fn spec_options(&self) -> Options {
        self.options
    }

    /// The year of the month before.
    pub open spec fn spec_pred_year(&self) -> int {
        if self.spec_month() == Month::January {
            self.spec_year() - 1
        } else {
            self.spec_year()
        }
    }

    /// The year of the month after.
    pub open spec fn spec_succ_year(&self) -> int {
        if self.spec_month() == Month::December {
            self.spec_year() + 1
        } else {
            self.spec_year()
        }
    }

    /// What the cell of day `day` of the month shows: the date, whether it
    /// is today and a weekend day, and, where the Chinese calendar is
    /// asked for, the Chinese date and the solar term of the day.
    pub open spec fn shows(&self, cell: Cell, day: int) -> bool {
        let year = self.spec_year();
        let month = self.spec_month().spec_number();
        let date = CivilDate { year: year as i32, month: month as u32, day: day as u32 };
        let weekday = weekday_number(year, month, day);
        &&& cell.date == date
        &&& cell.today == (self.spec_today() == Some(date))
        &&& cell.weekend == (weekday == 0 || weekday == 6)
        &&& if self.spec_options().enable_chinese {
            &&& cell.chinese_date is Some <==> gregorian_to_parts(
                year,
                date.spec_ordinal0(),
            ) is Some
            &&& cell.chinese_date matches Some(chinese) ==> gregorian_to_parts(
                year,
                date.spec_ordinal0(),
            ) == Some(chinese@)
            &&& cell.solar_term is Some <==> term_on(year, month, day) is Some
            &&& cell.solar_term matches Some(term) ==> term_on(year, month, day) == Some(
                term.spec_ordinal(),
            )
        } else {
            cell.chinese_date is None && cell.solar_term is None
        }
    }

    /// The calendar of a month of a year that `chrono` can hold.
    pub fn new(year: i32, month: Month, today: Option<CivilDate>, options: Options) -> (calendar:
        Option<Self>)
        ensures
            calendar is Some <==> MIN_YEAR <= year <= MAX_YEAR,
            calendar matches Some(c) ==> c.spec_year() == year && c.spec_month() == month
                && c.spec_today() == today && c.spec_options() == options,
    {
        let first = CivilDate { year, month: month.as_number() as u32, day: 1 };
        if first.is_real() {
            Some(Self { year, month, today, options })
        } else {
            None
        }
    }

    /// The year.
    pub fn year(&self) -> (year: i32)
        ensures
            year as int == self.spec_year(),
    {
        self.year
    }

    /// The month.
    pub fn month(&self) -> (month: Month)
        ensures
            month == self.spec_month(),
    {
        self.month
    }

    /// The day that counts as today, if one does.
    pub fn today(&self) -> (today: Option<CivilDate>)
        ensures
            today == self.spec_today(),
    {
        self.today
    }

    /// How the calendar is to be shown.
    pub fn options(&self) -> (options: Options)
        ensures
            options == self.spec_options(),
    {
        self.options
    }

    /// The calendar of the month before, if `chrono` can hold its year.
    pub fn pred(self) -> (calendar: Option<Self>)
        ensures
            calendar is Some <==> MIN_YEAR <= self.spec_pred_year() <= MAX_YEAR,
            calendar matches Some(c) ==> {
                &&& c.spec_month() == self.spec_month().spec_pred()
                &&& c.spec_year() == self.spec_pred_year()
                &&& c.spec_today() == self.spec_today()
                &&& c.spec_options() == self.spec_options()
            },
    {
        let year = if self.month.as_number() == 1 {
            match self.year.checked_sub(1) {
                Some(year) => year,
                None => {
                    return None;
                },
            }
        } else {
            self.year
        };
        Self::new(year, self.month.pred(), self.today, self.options)
    }

    /// The calendar of the month after, if `chrono` can hold its year.
    pub fn succ(self) -> (calendar: Option<Self>)
        ensures
            calendar is Some <==> MIN_YEAR <= self.spec_succ_year() <= MAX_YEAR,
            calendar matches Some(c) ==> {
                &&& c.spec_month() == self.spec_month().spec_next()
                &&& c.spec_year() == self.spec_succ_year()
                &&& c.spec_today() == self.spec_today()
                &&& c.spec_options() == self.spec_options()
            },
    {
        let year = if self.month.as_number() == 12 {
            match self.year.checked_add(1) {
                Some(year) => year,
                None => {
                    return None;
                },
            }
        } else {
            self.year
        };
        Self::new(year, self.month.next(), self.today, self.options)
    }

    /// Goes through the rows of the calendar, from the first.
    pub fn iter(&self) -> (rows: Iter<'_>)
        ensures
            rows.spec_calendar() == *self,
            rows.spec_day() == 1,
    {
        Iter { calendar: self, day: 1 }
    }

    /// What heads the calendar.
    pub fn title(&self) -> (title: MonthTitle)
        ensures
            title.year as int == self.spec_year(),
            title.month == self.spec_month(),
            title.enable_chinese == self.spec_options().enable_chinese,
    {
        MonthTitle {
            year: self.year,
            month: self.month,
            enable_chinese: self.options.enable_chinese,
        }
    }
}

/// The column of a day of the week in a row that begins with Monday or
/// with Sunday.
pub fn column_for(weekday: Day, from_monday: bool) -> (column: usize)
    ensures
        column as int == column_of(weekday.spec_number(), from_monday),
        column < 7,
{
    let number = weekday.as_number();
    if from_monday {
        ((number + 6) % 7) as usize
    } else {
        number as usize
    }
}

/// Whether a day of the week is the last of a row that begins with Monday
/// or with Sunday.
pub fn is_row_end(weekday: Day, from_monday: bool) -> (ends: bool)
    ensures
        ends == ends_row(weekday.spec_number(), from_monday),
{
    if from_monday {
        weekday.as_number() == 0
    } else {
        weekday.as_number() == 6
    }
}

/// The first cell of a row that holds a day.
fn first_cell(cells: &[Option<Cell>; 7]) -> (cell: Option<Cell>)
    ensures
        cell == if cells@[0] is Some {
            cells@[0]
        } else if cells@[1] is Some {
            cells@[1]
        } else if cells@[2] is Some {
            cells@[2]
        } else if cells@[3] is Some {
            cells@[3]
        } else if cells@[4] is Some {
            cells@[4]
        } else if cells@[5] is Some {
            cells@[5]
        } else {
            cells@[6]
        },
{
    let mut column: usize = 0;
    while column < 6
        invariant
            column <= 6,
            forall|before: int| 0 <= before < column ==> cells@[before] is None,
        decreases 6 - column,
    {
        if cells[column].is_some() {
            return cells[column];
        }
        column = column + 1;
    }
    cells[6]
}

impl<'a> Iter<'a> {
    /// The calendar whose rows these are.
    pub closed spec fn spec_calendar(&self) -> Calendar {
        *self.calendar
    }

    /// The day of the month with which the next row begins.
    pub closed spec fn spec_day(&self) -> int {
        self.day as int
    }

    /// The next row of the calendar with its week number, or nothing once
    /// the month is over. The row runs from the day at which the rows
    /// before it ended to the end of the week or of the month; each day
    /// stands in the column of its day of the week.
    pub fn next(&mut self) -> (row: Option<(u32, [Option<Cell>; 7])>)
        ensures
            final(self).spec_calendar() == old(self).spec_calendar(),
            row is Some <==> civil_exists(
                old(self).spec_calendar().spec_year(),
                old(self).spec_calendar().spec_month().spec_number(),
                old(self).spec_day(),
            ),
            row is None ==> final(self).spec_day() == old(self).spec_day(),
            row matches Some((week, cells)) ==> ({
                let calendar = old(self).spec_calendar();
                let year = calendar.spec_year();
                let month = calendar.spec_month().spec_number();
                let from_monday = calendar.spec_options().start_on_monday;
                let last = row_last_day(year, month, old(self).spec_day(), from_monday);
                let columns = row_columns(year, month, old(self).spec_day(), last, from_monday);
                &&& final(self).spec_day() == last + 1
                &&& forall|column: int|
                    0 <= column < 7 ==> column_shows(
                        calendar,
                        #[trigger] cells@[column],
                        columns[column],
                    )
                &&& week as int == row_week(
                    year,
                    month,
                    columns,
                    calendar.spec_options().week_number,
                    from_monday,
                )
            }),
    {
        let calendar: &Calendar = self.calendar;
        let year = calendar.year;
        let month = calendar.month.as_number() as u32;
        let first: u32 = self.day as u32;
        let start = CivilDate { year, month, day: first };
        if !start.is_real() {
            return None;
        }
        let length: u32 = days_of_month(year, calendar.month) as u32;
        let from_monday = calendar.options.start_on_monday;
        let mut cells: [Option<Cell>; 7] = [None, None, None, None, None, None, None];
        let mut day: u32 = first;
        let ghost mut columns = empty_row();
        assert(columns =~= row_columns(
            year as int,
            month as int,
            first as int,
            first - 1,
            from_monday,
        ));
        loop
            invariant_except_break
                self.day as int == day,
                columns == row_columns(
                    year as int,
                    month as int,
                    first as int,
                    day - 1,
                    from_monday,
                ),
                row_last_day(year as int, month as int, first as int, from_monday) == row_last_day(
                    year as int,
                    month as int,
                    day as int,
                    from_monday,
                ),
            invariant
                1 <= first <= day <= length <= 31,
                length as int == spec_days_of_month(year as int, month_of_number(month as int)),
                MIN_YEAR <= year <= MAX_YEAR,
                1 <= month <= 12,
                month as int == calendar.month.spec_number(),
                year as int == calendar.spec_year(),
                from_monday == calendar.options.start_on_monday,
                self.calendar == calendar,
                columns.len() == 7,
                forall|column: int|
                    0 <= column < 7 ==> column_shows(
                        *calendar,
                        #[trigger] cells@[column],
                        columns[column],
                    ),
                forall|column: int|
                    0 <= column < 7 ==> (#[trigger] columns[column] matches Some(d) ==> 1 <= d
                        <= length),
            ensures
                self.day as int == day + 1,
                day as int == row_last_day(year as int, month as int, first as int, from_monday),
                columns == row_columns(
                    year as int,
                    month as int,
                    first as int,
                    day as int,
                    from_monday,
                ),
            decreases length - day,
        {
            let date = CivilDate { year, month, day };
            let weekday = match date.weekday() {
                Some(weekday) => weekday,
                None => {
                    return None;
                },
            };
            let (chinese_date, solar_term) = if calendar.options.enable_chinese {
                (
                    ChineseDate::from_gregorian(year, date.ordinal0()),
                    SolarTerm::from_date(year, month, day),
                )
            } else {
                (None, None)
            };
            let today = match calendar.today {
                Some(today) => today.year == year && today.month == month && today.day == day,
                None => false,
            };
            let column = column_for(weekday, from_monday);
            let cell = Cell { date, today, weekend: is_weekend(weekday), chinese_date, solar_term };
            assert(calendar.shows(cell, day as int));
            cells[column] = Some(cell);
            proof {
                columns = columns.update(column as int, Some(day as int));
            }
            self.day = self.day + 1;
            if day >= length || is_row_end(weekday, from_monday) {
                break ;
            }
            day = day + 1;
        }
        let week: u32 = if !calendar.options.week_number {
            0
        } else if !from_monday && cells[1].is_some() {
            match cells[1] {
                Some(monday) => match monday.date.iso_week() {
                    Some(week) => week,
                    None => 0,
                },
                None => 0,
            }
        } else if !from_monday && cells[0].is_some() {
            match cells[0] {
                Some(sunday) => match sunday.date.next() {
                    Some(monday) => match monday.iso_week() {
                        Some(week) => week,
                        None => 0,
                    },
                    None => 0,
                },
                None => 0,
            }
        } else {
            match first_cell(&cells) {
                Some(cell) => match cell.date.iso_week() {
                    Some(week) => week,
                    None => 0,
                },
                None => 0,
            }
        };
        Some((week, cells))
    }
}

} // verus!
