//! What the calendar is told by its surroundings: the language of a
//! locale, and whether to show the Chinese calendar and colours.

use vstd::prelude::*;

use crate::date::{month_of_number, Month};
use crate::language::Language;

verus! {

/// The first place from `from` on at which `mark` stands in a text; the
/// length of the text if it stands nowhere.
pub open spec fn first_place(text: Seq<char>, mark: char, from: int) -> int
    decreases text.len() - from,
{
    if from < 0 || from >= text.len() {
        text.len() as int
    } else if text[from] == mark {
        from
    } else {
        first_place(text, mark, from + 1)
    }
}

/// The language of a locale such as `zh_TW.UTF-8`. What follows the first
/// full stop does not count. Before an underscore stands the language,
/// after it the region: Chinese is written in traditional characters in
/// the regions HK, MO and TW, else in simplified ones. A locale without
/// an underscore is Chinese only if it is `zh` and nothing more. All else
/// is English.
pub open spec fn locale_language(locale: Seq<char>) -> Language {
    let stop = first_place(locale, '.', 0);
    let name = locale.subrange(0, stop);
    let line = first_place(name, '_', 0);
    if line < name.len() {
        let region = name.subrange(line + 1, name.len() as int);
        if name.subrange(0, line) == "zh"@ {
            if region == "HK"@ || region == "MO"@ || region == "TW"@ {
                Language::ChineseTraditional
            } else {
                Language::ChineseSimplified
            }
        } else {
            Language::English
        }
    } else if locale == "zh"@ {
        Language::ChineseSimplified
    } else {
        Language::English
    }
}

/// Whether two texts are the same.
pub fn same_text(left: &str, right: &str) -> (same: bool)
    ensures
        same == (left@ == right@),
{
    let length = left.unicode_len();
    if length != right.unicode_len() {
        return false;
    }
    let mut at: usize = 0;
    while at < length
        invariant
            at <= length,
            length == left@.len(),
            length == right@.len(),
            forall|i: int| 0 <= i < at ==> left@[i] == right@[i],
        decreases length - at,
    {
        if left.get_char(at) != right.get_char(at) {
            return false;
        }
        at = at + 1;
    }
    proof {
        assert(left@ =~= right@);
    }
    true
}

/// The first place at which `mark` stands in `text`; the length of the
/// text if it stands nowhere.
pub fn find_first(text: &str, mark: char) -> (place: usize)
    ensures
        place as int == first_place(text@, mark, 0),
        place <= text@.len(),
{
    let length = text.unicode_len();
    let mut at: usize = 0;
    while at < length
        invariant
            at <= length,
            length == text@.len(),
            first_place(text@, mark, 0) == first_place(text@, mark, at as int),
        decreases length - at,
    {
        if text.get_char(at) == mark {
            return at;
        }
        at = at + 1;
    }
    length
}

/// The language of a locale such as `zh_TW.UTF-8`.
pub fn language_of_locale(locale: &str) -> (language: Language)
    ensures
        language == locale_language(locale@),
{
    let stop = find_first(locale, '.');
    let name = locale.substring_char(0, stop);
    let line = find_first(name, '_');
    let length = name.unicode_len();
    if line < length {
        let region = name.substring_char(line + 1, length);
        if same_text(name.substring_char(0, line), "zh") {
            if same_text(region, "HK") || same_text(region, "MO") || same_text(region, "TW") {
                Language::ChineseTraditional
            } else {
                Language::ChineseSimplified
            }
        } else {
            Language::English
        }
    } else if same_text(locale, "zh") {
        Language::ChineseSimplified
    } else {
        Language::English
    }
}

/// Whether the Chinese calendar is shown: always or never where that is
/// asked for, else just when the language is Chinese.
pub fn chinese_enabled(choice: Option<&str>, language: Language) -> (enabled: bool)
    ensures
        enabled == match choice {
            Some(word) => if word@ == "always"@ {
                true
            } else if word@ == "never"@ {
                false
            } else {
                language != Language::English
            },
            None => language != Language::English,
        },
{
    let by_language = match language {
        Language::English => false,
        _ => true,
    };
    match choice {
        Some(word) => if same_text(word, "always") {
            true
        } else if same_text(word, "never") {
            false
        } else {
            by_language
        },
        None => by_language,
    }
}

/// Whether colours are used: always or never where that is asked for, else
/// just when the calendar is written to a terminal.
pub fn color_enabled(choice: Option<&str>, terminal: bool) -> (enabled: bool)
    ensures
        enabled == match choice {
            Some(word) => if word@ == "always"@ {
                true
            } else if word@ == "never"@ {
                false
            } else {
                terminal
            },
            None => terminal,
        },
{
    match choice {
        Some(word) => if same_text(word, "always") {
            true
        } else if same_text(word, "never") {
            false
        } else {
            terminal
        },
        None => terminal,
    }
}

/// What is shown: one month or three, as a grid or as a list, or a whole
/// year.
#[derive(Clone, Copy, Debug, PartialEq, Eq, Structural)]
pub enum Layout {
    Month,
    TripleMonth,
    ListMonth,
    ListTripleMonth,
    ListYear,
    Year,
}

/// The month to show: the one asked for; else, where no year is asked for
/// either, the month of today. Nothing where a year alone is asked for,
/// or a month that is none of the twelve.
pub fn month_to_show(year: Option<i32>, month: Option<u8>, month_of_today: u8) -> (shown: Option<
    Month,
>)
    ensures
        shown == (match month {
            Some(number) => if 1 <= number <= 12 {
                Some(month_of_number(number as int))
            } else {
                None
            },
            None => if year is None && 1 <= month_of_today <= 12 {
                Some(month_of_number(month_of_today as int))
            } else {
                None
            },
        }),
{
    let number = match month {
        Some(number) => Some(number),
        None => if year.is_none() {
            Some(month_of_today)
        } else {
            None
        },
    };
    match number {
        Some(number) => Month::from_number(number),
        None => None,
    }
}

/// What to show: with a month, and no full year asked for, that month,
/// alone or between its neighbours, as a grid or as a list; else the
/// year, as a list or as a grid.
pub fn choose_layout(month: bool, full_year: bool, list: bool, triple: bool) -> (layout: Layout)
    ensures
        layout == (if month && !full_year {
            if list && triple {
                Layout::ListTripleMonth
            } else if list {
                Layout::ListMonth
            } else if triple {
                Layout::TripleMonth
            } else {
                Layout::Month
            }
        } else if list {
            Layout::ListYear
        } else {
            Layout::Year
        }),
{
    if month && !full_year {
        if list {
            if triple {
                Layout::ListTripleMonth
            } else {
                Layout::ListMonth
            }
        } else if triple {
            Layout::TripleMonth
        } else {
            Layout::Month
        }
    } else if list {
        Layout::ListYear
    } else {
        Layout::Year
    }
}

} // verus!
