use nongli::calendar::{Calendar, Options};
use nongli::chinese_date::ChineseDate;
use nongli::civil::CivilDate;
use nongli::date::Day;
use nongli::festivals::Festival;
use nongli::solar_term::SolarTerm;
use nongli::cli_calendar::{
    cell_label, cell_width, day_paint, label_paint, list_entry, push_spaces, rendered_width,
    zip_lines,
    Aligned, Alignment, Paint, Tint, ZipByLine, CELL_WIDTH_WITHOUT_CHINESE,
    CELL_WIDTH_WITH_CHINESE,
};
use nongli::date::Month;
use nongli::language::Language;

fn options(enable_chinese: bool) -> Options {
    Options {
        color: true,
        enable_chinese,
        language: Language::ChineseSimplified,
        start_on_monday: false,
        week_number: false,
    }
}

#[test]
fn widths_on_a_terminal() {
    assert_eq!(rendered_width(""), 0);
    assert_eq!(rendered_width("abc"), 3);
    assert_eq!(rendered_width("春节"), 4);
    assert_eq!(rendered_width("a春b"), 4);
    assert_eq!(rendered_width("\u{4e00}\u{9fff}"), 4);
    assert_eq!(rendered_width("\u{4dff}\u{a000}"), 2);
    assert_eq!(rendered_width("é"), 1);
    assert_eq!(cell_width(&options(true)), 6);
    assert_eq!(cell_width(&options(false)), 4);
    assert_eq!(CELL_WIDTH_WITH_CHINESE, 6);
    assert_eq!(CELL_WIDTH_WITHOUT_CHINESE, 4);
}

#[test]
fn texts_padded_to_a_width() {
    assert_eq!(Aligned("ab", Alignment::Center, 6).render(), "  ab  ");
    assert_eq!(Aligned("abc", Alignment::Center, 6).render(), " abc  ");
    assert_eq!(Aligned("ab", Alignment::Left, 6).render(), "ab    ");
    assert_eq!(Aligned("春节", Alignment::Center, 6).render(), " 春节 ");
    assert_eq!(Aligned("春节", Alignment::Left, 5).render(), "春节 ");
    assert_eq!(Aligned("abcdef", Alignment::Center, 6).render(), "abcdef");
    assert_eq!(Aligned("abcdefg", Alignment::Left, 6).render(), "abcdefg");
    assert_eq!(Aligned("", Alignment::Center, 3).render(), "   ");
    assert_eq!(Aligned("", Alignment::Center, 0).render(), "");
    let mut text = String::from("x");
    push_spaces(&mut text, 3);
    assert_eq!(text, "x   ");
    push_spaces(&mut text, 0);
    assert_eq!(text, "x   ");
}

#[test]
fn texts_side_by_side() {
    assert_eq!(ZipByLine(&["a\nb", " \n \n", "c"]).render(), "a c\nb \n");
    assert_eq!(ZipByLine(&["a\r\nb\n", "1\n2\n3"]).render(), "a1\nb2\n3\n");
    assert_eq!(ZipByLine(&[]).render(), "");
    assert_eq!(ZipByLine(&["", ""]).render(), "");
    assert_eq!(ZipByLine(&["\n\nx"]).render(), "\n\nx\n");
    let lines = vec![
        vec![String::from("a"), String::from("b")],
        vec![],
        vec![String::from("1"), String::from("2"), String::from("3")],
    ];
    assert_eq!(zip_lines(&lines), "a1\nb2\n3\n");
    assert_eq!(zip_lines(&Vec::new()), "");
}

#[test]
fn colours_of_days() {
    let weekend = Some(Tint::Weekend);
    assert_eq!(day_paint(true, true), Paint { foreground: weekend, on_white: true, inverted: false });
    assert_eq!(day_paint(true, false), Paint { foreground: None, on_white: false, inverted: true });
    assert_eq!(day_paint(false, true), Paint { foreground: weekend, on_white: false, inverted: false });
    assert_eq!(day_paint(false, false), Paint { foreground: None, on_white: false, inverted: false });
    let festival = Some(Tint::Festival);
    assert_eq!(label_paint(false, false, festival), Paint { foreground: festival, on_white: false, inverted: false });
    assert_eq!(label_paint(false, true, festival), Paint { foreground: festival, on_white: false, inverted: false });
    assert_eq!(label_paint(true, false, festival), Paint { foreground: festival, on_white: true, inverted: false });
    assert_eq!(label_paint(true, true, None), Paint { foreground: weekend, on_white: true, inverted: false });
    assert_eq!(label_paint(true, false, None), Paint { foreground: None, on_white: false, inverted: true });
    assert_eq!(label_paint(false, true, None), Paint { foreground: weekend, on_white: false, inverted: false });
    assert_eq!(label_paint(false, false, None), Paint { foreground: None, on_white: false, inverted: false });
}

fn labels(year: i32, month: Month, enable_chinese: bool) -> Vec<(String, Option<Tint>)> {
    let calendar = Calendar::new(year, month, None, options(enable_chinese)).unwrap();
    let mut labels = Vec::new();
    let mut rows = calendar.iter();
    while let Some((_, cells)) = rows.next() {
        for cell in cells.iter().flatten() {
            labels.push(cell_label(cell, Language::ChineseSimplified));
        }
    }
    labels
}

#[test]
fn what_stands_under_the_days() {
    let labels = labels(2023, Month::January, true);
    assert_eq!(labels.len(), 31);
    // 1 January 2023 is the 10th of the twelfth month.
    assert_eq!(labels[0], (String::from("初十"), None));
    // The 5th is Xiaohan, the 14th and 15th the two Xiaonian, the 21st
    // Chuxi, the 22nd Chunjie.
    assert_eq!(labels[4], (String::from("小寒"), Some(Tint::SolarTerm)));
    assert_eq!(labels[13], (String::from("北方.."), Some(Tint::Festival)));
    assert_eq!(labels[14], (String::from("南方.."), Some(Tint::Festival)));
    assert_eq!(labels[20], (String::from("除夕"), Some(Tint::Festival)));
    assert_eq!(labels[21], (String::from("春节"), Some(Tint::Festival)));
    assert_eq!(labels[22], (String::from("初二"), None));
    // 20 February 2023 begins the second month.
    let labels = self::labels(2023, Month::February, true);
    assert_eq!(labels[19], (String::from("二月"), Some(Tint::NewMonth)));
    // 22 March 2023 begins the leap second month.
    let labels = self::labels(2023, Month::March, true);
    assert_eq!(labels[21], (String::from("闰二月"), Some(Tint::NewMonth)));
    // Without the Chinese calendar nothing stands there.
    let labels = self::labels(2023, Month::March, false);
    assert!(labels.iter().all(|label| *label == (String::new(), None)));
    // Before the tables begin there is no Chinese date.
    let labels = self::labels(1900, Month::January, true);
    assert_eq!(labels[0], (String::new(), None));
    assert_eq!(labels[30], (String::from("春节"), Some(Tint::Festival)));
}

#[test]
fn days_of_a_list() {
    let today = CivilDate { year: 2023, month: 3, day: 22 };
    let calendar = Calendar::new(2023, Month::January, Some(today), options(true)).unwrap();
    let entry = list_entry(&calendar, 22).unwrap();
    assert_eq!(entry.date, CivilDate { year: 2023, month: 1, day: 22 });
    assert_eq!(entry.weekday, Day::Sunday);
    assert!(entry.weekend);
    // Today counts by year and day of the month.
    assert!(entry.today);
    assert_eq!(entry.chinese_date, ChineseDate::new(2023, 1, false, 1));
    assert_eq!(entry.festival, Some(Festival::Chunjie));
    assert_eq!(entry.solar_term, None);
    let entry = list_entry(&calendar, 5).unwrap();
    assert_eq!(entry.weekday, Day::Thursday);
    assert!(!entry.weekend);
    assert!(!entry.today);
    assert_eq!(entry.chinese_date, ChineseDate::new(2022, 12, false, 14));
    assert_eq!(entry.festival, None);
    assert_eq!(entry.solar_term, Some(SolarTerm::Xiaohan));
    assert_eq!(list_entry(&calendar, 0), None);
    assert_eq!(list_entry(&calendar, 32), None);
    let calendar = Calendar::new(2023, Month::February, None, options(false)).unwrap();
    let entry = list_entry(&calendar, 28).unwrap();
    assert_eq!(entry.weekday, Day::Tuesday);
    assert_eq!((entry.chinese_date, entry.festival, entry.solar_term), (None, None, None));
    assert!(!entry.today);
    assert_eq!(list_entry(&calendar, 29), None);
}
