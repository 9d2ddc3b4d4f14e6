use nongli::chinese_date::{ChineseDate, ChineseDay, ChineseMonth, ChineseYear};
use nongli::date::{Day, Month};
use nongli::festivals::Festival;
use nongli::language::{
    branch, cut_short, day_numeral, decimal, digits, get_char, get_char_as_str, month_numeral,
    stem, year_signs, Language, MonthTitle, Short, ShortTranslate, StaticTranslate, Translate,
    TranslateAdapter, YearTitle, DIZHI, NUMBER, SHENGXIAO_S, SHENGXIAO_T, TIANGAN,
};
use nongli::language::Language::{ChineseSimplified, ChineseTraditional, English};
use nongli::solar_term::SolarTerm;

#[test]
fn characters_by_threes_of_bytes() {
    assert_eq!(get_char(TIANGAN, 0), Some('甲'));
    assert_eq!(get_char(TIANGAN, 9), Some('癸'));
    assert_eq!(get_char(TIANGAN, 10), None);
    assert_eq!(get_char(DIZHI, 3), Some('卯'));
    assert_eq!(get_char(SHENGXIAO_S, 4), Some('龙'));
    assert_eq!(get_char(SHENGXIAO_T, 4), Some('龍'));
    assert_eq!(get_char("abcdef", 1), Some('d'));
    assert_eq!(get_char("abc", 1), None);
    assert_eq!(get_char("a甲", 1), None);
    assert_eq!(get_char("", 0), None);
    assert_eq!(get_char("abc", usize::MAX), None);
    assert_eq!(get_char_as_str(NUMBER, 0), Some("一"));
    assert_eq!(get_char_as_str(NUMBER, 9), Some("十"));
    assert_eq!(get_char_as_str(NUMBER, 10), None);
    assert_eq!(get_char_as_str("abcdef", 1), Some("def"));
    assert_eq!(get_char_as_str("abcde", 1), None);
    assert_eq!(get_char_as_str("a甲bc", 0), None);
    assert_eq!(get_char_as_str("a甲bc", 1), None);
    assert_eq!(get_char_as_str("abc", usize::MAX / 3), None);
}

#[test]
fn numbers_in_digits() {
    assert_eq!(digits(0), "0");
    assert_eq!(digits(9), "9");
    assert_eq!(digits(10), "10");
    assert_eq!(digits(2023), "2023");
    assert_eq!(digits(u64::MAX), u64::MAX.to_string());
    assert_eq!(decimal(0), "0");
    assert_eq!(decimal(-1), "-1");
    assert_eq!(decimal(-262143), "-262143");
    assert_eq!(decimal(i64::MIN), i64::MIN.to_string());
    assert_eq!(decimal(i64::MAX), i64::MAX.to_string());
}

#[test]
fn signs_of_years() {
    assert_eq!((stem(1984), branch(1984)), (0, 0));
    assert_eq!((stem(2023), branch(2023)), (9, 3));
    assert_eq!((stem(1983), branch(1983)), (9, 11));
    assert_eq!((stem(1900), branch(1900)), (6, 0));
    assert_eq!((stem(-1), branch(-1)), (5, 7));
    assert_eq!(year_signs(2023, false), "癸卯兔");
    assert_eq!(year_signs(2024, false), "甲辰龙");
    assert_eq!(year_signs(2024, true), "甲辰龍");
    assert_eq!(ChineseYear(2023).translate_to_string(English), "Guimao Year of the Rabbit");
    assert_eq!(ChineseYear(2024).translate_to_string(English), "Jiachen Year of the Dragon");
    assert_eq!(ChineseYear(2023).translate_to_string(ChineseSimplified), "癸卯兔年");
    assert_eq!(ChineseYear(2024).translate_to_string(ChineseTraditional), "甲辰龍年");
}

#[test]
fn months_and_days_of_the_chinese_calendar() {
    assert_eq!(ChineseMonth(2, true).translate_to_string(English), "2+");
    assert_eq!(ChineseMonth(12, false).translate_to_string(English), "12");
    assert_eq!(ChineseMonth(200, false).translate_to_string(English), "200");
    assert_eq!(ChineseMonth(2, true).translate_to_string(ChineseSimplified), "闰二月");
    assert_eq!(ChineseMonth(2, true).translate_to_string(ChineseTraditional), "閏二月");
    assert_eq!(ChineseMonth(1, false).translate_to_string(ChineseSimplified), "正月");
    assert_eq!(ChineseMonth(10, false).translate_to_string(ChineseSimplified), "十月");
    assert_eq!(ChineseMonth(11, false).translate_to_string(ChineseSimplified), "十一月");
    assert_eq!(ChineseMonth(12, false).translate_to_string(ChineseTraditional), "十二月");
    assert_eq!(month_numeral(1), "正");
    assert_eq!(month_numeral(2), "二");
    let names: Vec<String> = (1..=30).map(day_numeral).collect();
    let expected = [
        "初一", "初二", "初三", "初四", "初五", "初六", "初七", "初八", "初九", "初十", "十一",
        "十二", "十三", "十四", "十五", "十六", "十七", "十八", "十九", "二十", "廿一", "廿二",
        "廿三", "廿四", "廿五", "廿六", "廿七", "廿八", "廿九", "三十",
    ];
    assert_eq!(names, expected);
    assert_eq!(ChineseDay(15).translate_to_string(English), "15");
    assert_eq!(ChineseDay(15).translate_to_string(ChineseSimplified), "十五");
    assert_eq!(ChineseDay(0).translate_to_string(English), "0");
}

#[test]
fn chinese_dates_in_words() {
    let date = ChineseDate::new(2023, 2, true, 1).unwrap();
    assert_eq!(date.translate_to_string(ChineseSimplified), "癸卯兔年闰闰二月月初一");
    assert_eq!(date.translate_to_string(English), "癸卯兔年闰2+月1");
    let date = ChineseDate::new(2023, 9, false, 16).unwrap();
    assert_eq!(date.translate_to_string(ChineseSimplified), "癸卯兔年九月月十六");
    assert_eq!(date.translate_to_string(ChineseTraditional), "癸卯兔年九月月十六");
    assert_eq!(date.short_translate(ChineseSimplified), "十六");
    assert_eq!(date.short_translate(English), "16");
    let first = ChineseDate::new(2023, 9, false, 1).unwrap();
    assert_eq!(first.short_translate(ChineseSimplified), "九月");
    assert_eq!(first.short_translate(English), "9");
    assert_eq!(Short(&first).translate_to_string(ChineseSimplified), "九月");
    assert_eq!(TranslateAdapter(&first, ChineseSimplified).render(), "癸卯兔年九月月初一");
}

#[test]
fn titles() {
    let title = MonthTitle { year: 2023, month: Month::October, enable_chinese: true };
    assert_eq!(title.translate_to_string(English), "October 2023 Guimao Year of the Rabbit");
    assert_eq!(title.translate_to_string(ChineseSimplified), "2023年 十月 癸卯兔年");
    let title = MonthTitle { year: 2023, month: Month::December, enable_chinese: false };
    assert_eq!(title.translate_to_string(English), "December 2023");
    assert_eq!(title.translate_to_string(ChineseTraditional), "2023年 十二月");
    let title = YearTitle { year: 2024, enable_chinese: true };
    assert_eq!(title.translate_to_string(English), "2024 Jiachen Year of the Dragon");
    assert_eq!(title.translate_to_string(ChineseTraditional), "2024年 甲辰龍年");
    let title = YearTitle { year: -5, enable_chinese: false };
    assert_eq!(title.translate_to_string(English), "-5");
    assert_eq!(title.translate_to_string(ChineseSimplified), "-5年");
}

#[test]
fn months_and_days_of_the_week() {
    assert_eq!(Month::January.static_translate(English), "January");
    assert_eq!(Month::September.static_translate(English), "September");
    assert_eq!(Month::January.static_translate(ChineseSimplified), "一");
    assert_eq!(Month::October.static_translate(ChineseSimplified), "十");
    assert_eq!(Month::November.static_translate(ChineseTraditional), "十一");
    assert_eq!(Month::December.static_translate(ChineseTraditional), "十二");
    assert_eq!(Month::May.short_translate(English), "May");
    assert_eq!(Month::September.short_translate(English), "Sep");
    assert_eq!(Month::September.short_translate(ChineseSimplified), "九");
    assert_eq!(Month::September.translate_to_string(English), "September");
    assert_eq!(Month::September.translate_to_string(ChineseSimplified), "九月");
    assert_eq!(Day::Sunday.static_translate(English), "Sun");
    assert_eq!(Day::Saturday.static_translate(English), "Sat");
    assert_eq!(Day::Wednesday.static_translate(ChineseSimplified), "三");
    assert_eq!(Day::Sunday.static_translate(ChineseTraditional), "日");
    assert_eq!(Day::Tuesday.short_translate(English), "Tue");
    assert_eq!(Day::Tuesday.translate_to_string(English), "Tuesday");
    assert_eq!(Day::Tuesday.translate_to_string(ChineseSimplified), "星期二");
    assert_eq!(Day::Sunday.translate_to_string(ChineseTraditional), "星期日");
    assert_eq!(Short(&Day::Monday).translate_to_string(English), "Mon");
    assert_eq!(TranslateAdapter(&Day::Monday, English).render(), "Monday");
}

#[test]
fn solar_terms_and_festivals_in_words() {
    assert_eq!(SolarTerm::Xiaohan.static_translate(English), "Xiaohan");
    assert_eq!(SolarTerm::Dongzhi.static_translate(English), "Dongzhi");
    assert_eq!(SolarTerm::Xiaohan.static_translate(ChineseSimplified), "小寒");
    assert_eq!(SolarTerm::Jingzhe.static_translate(ChineseSimplified), "惊蛰");
    assert_eq!(SolarTerm::Jingzhe.static_translate(ChineseTraditional), "驚蟄");
    assert_eq!(SolarTerm::Shuangjiang.static_translate(ChineseSimplified), "霜降");
    assert_eq!(SolarTerm::Dongzhi.static_translate(ChineseTraditional), "冬至");
    assert_eq!(SolarTerm::Shuangjiang.translate_to_string(English), "Shuangjiang");
    assert_eq!(SolarTerm::Shuangjiang.short_translate(English), "Shuan.");
    assert_eq!(SolarTerm::Xiaohan.short_translate(English), "Xiaoh.");
    assert_eq!(SolarTerm::Lichun.short_translate(English), "Lichun");
    assert_eq!(SolarTerm::Dahan.short_translate(English), "Dahan");
    assert_eq!(SolarTerm::Shuangjiang.short_translate(ChineseSimplified), "霜降");
    assert_eq!(Festival::Chunjie.static_translate(English), "Chunjie");
    assert_eq!(Festival::NorthernXiaonian.static_translate(English), "Northern Xiaonian");
    assert_eq!(Festival::Chunjie.static_translate(ChineseSimplified), "春节");
    assert_eq!(Festival::Chunjie.static_translate(ChineseTraditional), "春節");
    assert_eq!(Festival::Chuxi.translate_to_string(ChineseSimplified), "除夕");
    assert_eq!(Festival::Chunjie.short_translate(English), "Chunj.");
    assert_eq!(Festival::Chuxi.short_translate(English), "Chuxi");
    assert_eq!(Festival::NorthernXiaonian.short_translate(English), "North.");
    assert_eq!(Festival::NorthernXiaonian.short_translate(ChineseSimplified), "北方..");
    assert_eq!(Festival::SouthernXiaonian.short_translate(ChineseTraditional), "南方..");
    assert_eq!(Festival::Yuanxiaojie.short_translate(ChineseSimplified), "元宵节");
    assert_eq!(Festival::Chuxi.short_translate(ChineseSimplified), "除夕");
    assert_eq!(cut_short("1234567"), "12345.");
    assert_eq!(cut_short("123456"), "123456");
    assert_eq!(cut_short(""), "");
}

#[test]
fn languages_differ() {
    assert_ne!(Language::English, Language::ChineseSimplified);
    assert_ne!(Language::ChineseSimplified, Language::ChineseTraditional);
}
