use nongli::date::Month;
use nongli::language::Language;
use nongli::settings::{
    chinese_enabled, choose_layout, color_enabled, find_first, language_of_locale, month_to_show,
    same_text, Layout,
};

#[test]
fn languages_of_locales() {
    assert_eq!(language_of_locale("zh_CN.UTF-8"), Language::ChineseSimplified);
    assert_eq!(language_of_locale("zh_TW.UTF-8"), Language::ChineseTraditional);
    assert_eq!(language_of_locale("zh_HK"), Language::ChineseTraditional);
    assert_eq!(language_of_locale("zh_MO.Big5"), Language::ChineseTraditional);
    assert_eq!(language_of_locale("zh_SG"), Language::ChineseSimplified);
    assert_eq!(language_of_locale("zh_"), Language::ChineseSimplified);
    assert_eq!(language_of_locale("zh_TW_x"), Language::ChineseSimplified);
    assert_eq!(language_of_locale("zh"), Language::ChineseSimplified);
    assert_eq!(language_of_locale("zh.UTF-8"), Language::English);
    assert_eq!(language_of_locale("en_US.UTF-8"), Language::English);
    assert_eq!(language_of_locale("en_TW"), Language::English);
    assert_eq!(language_of_locale("C"), Language::English);
    assert_eq!(language_of_locale(""), Language::English);
    assert_eq!(language_of_locale(".zh_TW"), Language::English);
    assert_eq!(language_of_locale("_TW"), Language::English);
    assert_eq!(language_of_locale("中文_TW"), Language::English);
}

#[test]
fn places_and_sameness_of_texts() {
    assert_eq!(find_first("a.b.c", '.'), 1);
    assert_eq!(find_first("abc", '.'), 3);
    assert_eq!(find_first("", '.'), 0);
    assert_eq!(find_first("中文.x", '.'), 2);
    assert!(same_text("zh", "zh"));
    assert!(same_text("", ""));
    assert!(!same_text("zh", "zH"));
    assert!(!same_text("zh", "zh "));
    assert!(!same_text("中", "文"));
}

#[test]
fn what_is_switched_on() {
    assert!(chinese_enabled(Some("always"), Language::English));
    assert!(!chinese_enabled(Some("never"), Language::ChineseSimplified));
    assert!(chinese_enabled(Some("auto"), Language::ChineseTraditional));
    assert!(!chinese_enabled(Some("auto"), Language::English));
    assert!(chinese_enabled(None, Language::ChineseSimplified));
    assert!(!chinese_enabled(None, Language::English));
    assert!(color_enabled(Some("always"), false));
    assert!(!color_enabled(Some("never"), true));
    assert!(color_enabled(Some("auto"), true));
    assert!(!color_enabled(Some("auto"), false));
    assert!(color_enabled(None, true));
    assert!(!color_enabled(None, false));
}

#[test]
fn what_is_shown() {
    assert_eq!(month_to_show(None, None, 10), Some(Month::October));
    assert_eq!(month_to_show(Some(2023), None, 10), None);
    assert_eq!(month_to_show(Some(2023), Some(3), 10), Some(Month::March));
    assert_eq!(month_to_show(None, Some(12), 10), Some(Month::December));
    assert_eq!(month_to_show(None, Some(13), 10), None);
    assert_eq!(month_to_show(None, Some(0), 10), None);
    assert_eq!(month_to_show(None, None, 0), None);
    assert_eq!(choose_layout(true, false, false, false), Layout::Month);
    assert_eq!(choose_layout(true, false, false, true), Layout::TripleMonth);
    assert_eq!(choose_layout(true, false, true, false), Layout::ListMonth);
    assert_eq!(choose_layout(true, false, true, true), Layout::ListTripleMonth);
    assert_eq!(choose_layout(true, true, false, true), Layout::Year);
    assert_eq!(choose_layout(true, true, true, false), Layout::ListYear);
    assert_eq!(choose_layout(false, false, false, false), Layout::Year);
    assert_eq!(choose_layout(false, false, true, true), Layout::ListYear);
}
