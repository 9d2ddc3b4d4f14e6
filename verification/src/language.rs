//! The languages the calendar is written in, and the words it uses.

use vstd::prelude::*;
use vstd::string::StringSliceAdditionalSpecFns;
use vstd::utf8::{
    decode_utf8, encode_utf8, encode_utf8_decode_utf8, encode_utf8_valid_utf8, is_char_boundary,
    is_char_boundary_iff_not_is_continuation_byte, is_char_boundary_start_end_of_seq,
    valid_utf8_split,
};

use crate::chinese_date::{ChineseDate, ChineseDay, ChineseMonth, ChineseYear};
use crate::date::{Day, Month};
use crate::festivals::Festival;
use crate::solar_term::SolarTerm;

verus! {

/// A language the calendar can be written in.
#[derive(Clone, Copy, Debug, PartialEq, Eq, Structural)]
pub enum Language {
    English,
    ChineseSimplified,
    ChineseTraditional,
}

/// What heads the calendar of a year.
#[derive(Clone, Copy, Debug)]
pub struct YearTitle {
    pub year: i32,
    pub enable_chinese: bool,
}

/// What heads the calendar of a month.
#[derive(Clone, Copy, Debug)]
pub struct MonthTitle {
    pub year: i32,
    pub month: Month,
    pub enable_chinese: bool,
}

/// The ten heavenly stems, in Latin letters.
pub const TIANGAN_EN: [&'static str; 10] = [
    "Jia",
    "Yi",
    "Bing",
    "Ding",
    "Wu",
    "Ji",
    "Geng",
    "Xin",
    "Ren",
    "Gui",
];

/// The ten heavenly stems.
pub const TIANGAN: &'static str = "甲乙丙丁戊己庚辛壬癸";

/// The twelve earthly branches.
pub const DIZHI: &'static str = "子丑寅卯辰巳午未申酉戌亥";

/// The twelve earthly branches, in Latin letters.
pub const DIZHI_EN: [&'static str; 12] = [
    "zi",
    "chou",
    "yin",
    "mao",
    "chen",
    "si",
    "wu",
    "wei",
    "shen",
    "you",
    "xu",
    "hai",
];

/// The twelve animals of the years, in simplified characters.
pub const SHENGXIAO_S: &'static str = "鼠牛虎兔龙蛇马羊猴鸡狗猪";

/// The twelve animals of the years, in traditional characters.
pub const SHENGXIAO_T: &'static str = "鼠牛虎兔龍蛇馬羊猴雞狗豬";

/// The twelve animals of the years, in English.
pub const SHENGXIAO_EN: [&'static str; 12] = [
    "Rat",
    "Ox",
    "Tiger",
    "Rabbit",
    "Dragon",
    "Snake",
    "Horse",
    "Goat",
    "Monkey",
    "Rooster",
    "Dog",
    "Pig",
];

/// The numerals from one to ten.
pub const NUMBER: &'static str = "一二三四五六七八九十";

/// The ten digits.
pub const DIGITS: &'static str = "0123456789";

/// The days of the week in English, from Sunday.
pub const DAY_NAMES: [&'static str; 7] = [
    "Sunday",
    "Monday",
    "Tuesday",
    "Wednesday",
    "Thursday",
    "Friday",
    "Saturday",
];

/// The months in English, from January.
pub const MONTH_NAMES: [&'static str; 12] = [
    "January",
    "February",
    "March",
    "April",
    "May",
    "June",
    "July",
    "August",
    "September",
    "October",
    "November",
    "December",
];

/// The solar terms in Latin letters, from Xiaohan.
pub const TERM_NAMES: [&'static str; 24] = [
    "Xiaohan",
    "Dahan",
    "Lichun",
    "Yushui",
    "Jingzhe",
    "Chunfen",
    "Qingming",
    "Guyu",
    "Lixia",
    "Xiaoman",
    "Mangzhong",
    "Xiazhi",
    "Xiaoshu",
    "Dashu",
    "Liqiu",
    "Chushu",
    "Bailu",
    "Qiufen",
    "Hanlu",
    "Shuangjiang",
    "Lidong",
    "Xiaoxue",
    "Daxue",
    "Dongzhi",
];

/// The solar terms in simplified characters, two characters each.
pub const TERMS_S: &'static str =
    "小寒大寒立春雨水惊蛰春分清明谷雨立夏小满芒种夏至小暑大暑立秋处暑白露秋分寒露霜降立冬小雪大雪冬至";

/// The solar terms in traditional characters, two characters each.
pub const TERMS_T: &'static str =
    "小寒大寒立春雨水驚蟄春分清明穀雨立夏小滿芒種夏至小暑大暑立秋處暑白露秋分寒露霜降立冬小雪大雪冬至";

/// The days of the week in English, three letters each, from Sunday.
pub const DAY_SHORTS: &'static str = "SunMonTueWedThuFriSat";

/// The days of the week in Chinese, one character each, from Sunday.
pub const DAY_CHARS: &'static str = "日一二三四五六";

/// The character of a text that begins at byte `at`, if one begins there.
pub open spec fn char_at_byte(text: Seq<char>, at: int) -> Option<char> {
    let bytes = encode_utf8(text);
    if 0 <= at < bytes.len() && is_char_boundary(bytes, at) {
        Some(decode_utf8(bytes.subrange(at, bytes.len() as int))[0])
    } else {
        None
    }
}

/// Whether bytes `from` to `to` of a text are whole characters.
pub open spec fn whole_chars(text: Seq<char>, from: int, to: int) -> bool {
    let bytes = encode_utf8(text);
    &&& 0 <= from <= to <= bytes.len()
    &&& is_char_boundary(bytes, from)
    &&& is_char_boundary(bytes, to)
}

/// A place inside a part cut off at a character boundary is a character
/// boundary of the part just when it is one of the whole.
proof fn lemma_boundary_in_tail(bytes: Seq<u8>, from: int, at: int)
    requires
        vstd::utf8::valid_utf8(bytes),
        is_char_boundary(bytes, from),
        0 <= from <= at <= bytes.len(),
    ensures
        vstd::utf8::valid_utf8(bytes.subrange(from, bytes.len() as int)),
        is_char_boundary(bytes.subrange(from, bytes.len() as int), at - from) == is_char_boundary(
            bytes,
            at,
        ),
{
    let tail = bytes.subrange(from, bytes.len() as int);
    valid_utf8_split(bytes, from);
    is_char_boundary_start_end_of_seq(bytes);
    is_char_boundary_start_end_of_seq(tail);
    if at < bytes.len() {
        is_char_boundary_iff_not_is_continuation_byte(bytes, at);
        is_char_boundary_iff_not_is_continuation_byte(tail, at - from);
    }
}

/// The character that begins at byte `3 * index` of `s`: in a text of
/// characters of three bytes each, character `index`.
pub fn get_char(s: &str, index: usize) -> (ch: Option<char>)
    ensures
        ch == char_at_byte(s@, 3 * index),
{
    proof {
        encode_utf8_valid_utf8(s@);
    }
    let length = s.as_bytes().len();
    let start = match index.checked_mul(3) {
        Some(start) => start,
        None => {
            return None;
        },
    };
    if start >= length || !s.is_char_boundary(start) {
        return None;
    }
    let (_, tail) = s.split_at(start);
    proof {
        encode_utf8_decode_utf8(tail@);
        assert(tail@.len() > 0) by {
            if tail@.len() == 0 {
                assert(encode_utf8(tail@).len() == 0);
            }
        }
    }
    Some(tail.get_char(0))
}

/// Bytes `3 * index` to `3 * index + 3` of `s`, if they are whole
/// characters: in a text of characters of three bytes each, character
/// `index`.
pub fn get_char_as_str(s: &str, index: usize) -> (part: Option<&str>)
    ensures
        part is Some <==> whole_chars(s@, 3 * index, 3 * index + 3),
        part matches Some(p) ==> encode_utf8(p@) == encode_utf8(s@).subrange(
            3 * index,
            3 * index + 3,
        ),
{
    proof {
        encode_utf8_valid_utf8(s@);
    }
    let length = s.as_bytes().len();
    let start = match index.checked_mul(3) {
        Some(start) => start,
        None => {
            return None;
        },
    };
    let end = match start.checked_add(3) {
        Some(end) => end,
        None => {
            return None;
        },
    };
    if end > length || !s.is_char_boundary(start) || !s.is_char_boundary(end) {
        return None;
    }
    let (_, tail) = s.split_at(start);
    proof {
        lemma_boundary_in_tail(s.spec_bytes(), start as int, end as int);
    }
    let (part, _) = tail.split_at(3);
    Some(part)
}

/// The decimal digits of a number.
pub open spec fn digits_text(number: nat) -> Seq<char>
    decreases number,
{
    if number < 10 {
        DIGITS@.subrange(number as int, number as int + 1)
    } else {
        digits_text(number / 10) + DIGITS@.subrange((number % 10) as int, (number % 10) as int + 1)
    }
}

/// A number written in decimal digits, with a minus sign before a
/// negative one.
pub open spec fn decimal_text(number: int) -> Seq<char> {
    if number < 0 {
        "-"@ + digits_text((-number) as nat)
    } else {
        digits_text(number as nat)
    }
}

/// The decimal digits of `number`.
pub fn digits(number: u64) -> (text: String)
    ensures
        text@ == digits_text(number as nat),
    decreases number,
{
    proof {
        reveal_strlit("0123456789");
    }
    if number < 10 {
        String::from_str(DIGITS.substring_char(number as usize, number as usize + 1))
    } else {
        let mut text = digits(number / 10);
        let last = (number % 10) as usize;
        text.append(DIGITS.substring_char(last, last + 1));
        text
    }
}

/// `number` written in decimal digits, with a minus sign before a negative
/// one.
pub fn decimal(number: i64) -> (text: String)
    ensures
        text@ == decimal_text(number as int),
{
    if number < 0 {
        let size: u64 = (-(number + 1)) as u64 + 1;
        let mut text = String::from_str("-");
        let rest = digits(size);
        text.append(rest.as_str());
        text
    } else {
        digits(number as u64)
    }
}

/// What has a text in each language.
pub trait Translate {
    /// Whether there is a text in `language`.
    spec fn translatable(&self, language: Language) -> bool;

    /// The text in `language`.
    spec fn translation(&self, language: Language) -> Seq<char>;

    /// The text in `language`.
    fn translate_to_string(&self, language: Language) -> (text: String)
        requires
            self.translatable(language),
        ensures
            text@ == self.translation(language),
    ;
}

/// What has a short text in each language.
pub trait ShortTranslate {
    /// Whether there is a short text in `language`.
    spec fn short_translatable(&self, language: Language) -> bool;

    /// The short text in `language`.
    spec fn short_translation(&self, language: Language) -> Seq<char>;

    /// The short text in `language`.
    fn short_translate(&self, language: Language) -> (text: String)
        requires
            self.short_translatable(language),
        ensures
            text@ == self.short_translation(language),
    ;
}

/// What has a text in each language that need not be put together.
pub trait StaticTranslate {
    /// The text in `language`.
    spec fn static_translation(&self, language: Language) -> Seq<char>;

    /// The text in `language`.
    fn static_translate(&self, language: Language) -> (text: &'static str)
        ensures
            text@ == self.static_translation(language),
    ;
}

/// Something to translate, with the language to translate it to.
#[derive(Clone, Copy, Debug)]
pub struct TranslateAdapter<'a, T: Translate>(pub &'a T, pub Language);

/// Something of which the short text is wanted.
#[derive(Clone, Copy, Debug)]
pub struct Short<'a, T: ShortTranslate>(pub &'a T);

impl<'a, T: Translate> TranslateAdapter<'a, T> {
    /// The text of what is held, in the language that is held.
    pub fn render(&self) -> (text: String)
        requires
            self.0.translatable(self.1),
        ensures
            text@ == self.0.translation(self.1),
    {
        self.0.translate_to_string(self.1)
    }
}

impl<'a, T: ShortTranslate> Translate for Short<'a, T> {
    open spec fn translatable(&self, language: Language) -> bool {
        self.0.short_translatable(language)
    }

    open spec fn translation(&self, language: Language) -> Seq<char> {
        self.0.short_translation(language)
    }

    fn translate_to_string(&self, language: Language) -> (text: String) {
        self.0.short_translate(language)
    }
}

impl StaticTranslate for Festival {
    open spec fn static_translation(&self, language: Language) -> Seq<char> {
        match language {
            Language::English => match self {
                Festival::Chunjie => "Chunjie"@,
                Festival::Yuanxiaojie => "Yuanxiaojie"@,
                Festival::Duanwujie => "Duanwujie"@,
                Festival::Zhongqiujie => "Zhongqiujie"@,
                Festival::NorthernXiaonian => "Northern Xiaonian"@,
                Festival::SouthernXiaonian => "Southern Xiaonian"@,
                Festival::Chuxi => "Chuxi"@,
            },
            Language::ChineseSimplified => match self {
                Festival::Chunjie => "春节"@,
                Festival::Yuanxiaojie => "元宵节"@,
                Festival::Duanwujie => "端午节"@,
                Festival::Zhongqiujie => "中秋节"@,
                Festival::NorthernXiaonian => "北方小年"@,
                Festival::SouthernXiaonian => "南方小年"@,
                Festival::Chuxi => "除夕"@,
            },
            Language::ChineseTraditional => match self {
                Festival::Chunjie => "春節"@,
                Festival::Yuanxiaojie => "元宵節"@,
                Festival::Duanwujie => "端午節"@,
                Festival::Zhongqiujie => "中秋節"@,
                Festival::NorthernXiaonian => "北方小年"@,
                Festival::SouthernXiaonian => "南方小年"@,
                Festival::Chuxi => "除夕"@,
            },
        }
    }

    fn static_translate(&self, language: Language) -> (text: &'static str) {
        match language {
            Language::English => match self {
                Festival::Chunjie => "Chunjie",
                Festival::Yuanxiaojie => "Yuanxiaojie",
                Festival::Duanwujie => "Duanwujie",
                Festival::Zhongqiujie => "Zhongqiujie",
                Festival::NorthernXiaonian => "Northern Xiaonian",
                Festival::SouthernXiaonian => "Southern Xiaonian",
                Festival::Chuxi => "Chuxi",
            },
            Language::ChineseSimplified => match self {
                Festival::Chunjie => "春节",
                Festival::Yuanxiaojie => "元宵节",
                Festival::Duanwujie => "端午节",
                Festival::Zhongqiujie => "中秋节",
                Festival::NorthernXiaonian => "北方小年",
                Festival::SouthernXiaonian => "南方小年",
                Festival::Chuxi => "除夕",
            },
            Language::ChineseTraditional => match self {
                Festival::Chunjie => "春節",
                Festival::Yuanxiaojie => "元宵節",
                Festival::Duanwujie => "端午節",
                Festival::Zhongqiujie => "中秋節",
                Festival::NorthernXiaonian => "北方小年",
                Festival::SouthernXiaonian => "南方小年",
                Festival::Chuxi => "除夕",
            },
        }
    }
}

impl StaticTranslate for SolarTerm {
    open spec fn static_translation(&self, language: Language) -> Seq<char> {
        let ordinal = self.spec_ordinal();
        match language {
            Language::English => TERM_NAMES@[ordinal]@,
            Language::ChineseSimplified => TERMS_S@.subrange(2 * ordinal, 2 * ordinal + 2),
            Language::ChineseTraditional => TERMS_T@.subrange(2 * ordinal, 2 * ordinal + 2),
        }
    }

    fn static_translate(&self, language: Language) -> (text: &'static str) {
        let ordinal = self.as_ordinal() as usize;
        proof {
            reveal_strlit(
                "小寒大寒立春雨水惊蛰春分清明谷雨立夏小满芒种夏至小暑大暑立秋处暑白露秋分寒露霜降立冬小雪大雪冬至",
            );
            reveal_strlit(
                "小寒大寒立春雨水驚蟄春分清明穀雨立夏小滿芒種夏至小暑大暑立秋處暑白露秋分寒露霜降立冬小雪大雪冬至",
            );
        }
        match language {
            Language::English => TERM_NAMES[ordinal],
            Language::ChineseSimplified => TERMS_S.substring_char(2 * ordinal, 2 * ordinal + 2),
            Language::ChineseTraditional => TERMS_T.substring_char(2 * ordinal, 2 * ordinal + 2),
        }
    }
}

impl StaticTranslate for Month {
    open spec fn static_translation(&self, language: Language) -> Seq<char> {
        let number = self.spec_number();
        if language == Language::English {
            MONTH_NAMES@[number - 1]@
        } else if number <= 10 {
            NUMBER@.subrange(number - 1, number)
        } else if number == 11 {
            "十一"@
        } else {
            "十二"@
        }
    }

    fn static_translate(&self, language: Language) -> (text: &'static str) {
        let number = self.as_number() as usize;
        proof {
            reveal_strlit("一二三四五六七八九十");
        }
        match language {
            Language::English => MONTH_NAMES[number - 1],
            _ => if number <= 10 {
                NUMBER.substring_char(number - 1, number)
            } else if number == 11 {
                "十一"
            } else {
                "十二"
            },
        }
    }
}

impl StaticTranslate for Day {
    open spec fn static_translation(&self, language: Language) -> Seq<char> {
        let number = self.spec_number();
        if language == Language::English {
            DAY_SHORTS@.subrange(3 * number, 3 * number + 3)
        } else {
            DAY_CHARS@.subrange(number, number + 1)
        }
    }

    fn static_translate(&self, language: Language) -> (text: &'static str) {
        let number = self.as_number() as usize;
        proof {
            reveal_strlit("SunMonTueWedThuFriSat");
            reveal_strlit("日一二三四五六");
        }
        match language {
            Language::English => DAY_SHORTS.substring_char(3 * number, 3 * number + 3),
            _ => DAY_CHARS.substring_char(number, number + 1),
        }
    }
}

/// The place of a year among the ten heavenly stems.
pub open spec fn stem_of(year: int) -> int {
    (year - 1984) % 10
}

/// The place of a year among the twelve earthly branches, and of its
/// animal among the twelve animals.
pub open spec fn branch_of(year: int) -> int {
    (year - 1984) % 12
}

/// The stem, the branch and the animal of a year, one character each.
pub open spec fn year_signs_text(year: int, traditional: bool) -> Seq<char> {
    let stem = stem_of(year);
    let branch = branch_of(year);
    TIANGAN@.subrange(stem, stem + 1) + DIZHI@.subrange(branch, branch + 1) + if traditional {
        SHENGXIAO_T@.subrange(branch, branch + 1)
    } else {
        SHENGXIAO_S@.subrange(branch, branch + 1)
    }
}

/// The numeral of a Chinese month: the first is the "right" month, the
/// others are numbered.
pub open spec fn month_numeral_text(month: int) -> Seq<char> {
    if month == 1 {
        "正"@
    } else if month <= 10 {
        NUMBER@.subrange(month - 1, month)
    } else if month == 11 {
        "十一"@
    } else {
        "十二"@
    }
}

/// The name of a day of a Chinese month, from 1 to 30.
pub open spec fn day_numeral_text(day: int) -> Seq<char> {
    if day <= 10 {
        "初"@ + NUMBER@.subrange(day - 1, day)
    } else if day <= 19 {
        "十"@ + NUMBER@.subrange(day - 11, day - 10)
    } else if day == 20 {
        "二十"@
    } else if day <= 29 {
        "廿"@ + NUMBER@.subrange(day - 21, day - 20)
    } else {
        "三十"@
    }
}

/// What follows the Gregorian year in a title where the Chinese calendar
/// is asked for: a space and the Chinese year.
pub open spec fn chinese_year_suffix(year: int, enable_chinese: bool, language: Language) -> Seq<
    char,
> {
    if enable_chinese {
        " "@ + ChineseYear(year as i32).translation(language)
    } else {
        Seq::<char>::empty()
    }
}

/// A text of more than six characters cut to five and a full stop; a
/// shorter one as it is.
pub open spec fn cut_to_five(text: Seq<char>) -> Seq<char> {
    if text.len() > 6 {
        text.subrange(0, 5) + "."@
    } else {
        text
    }
}

/// The place of `year` among the ten heavenly stems.
pub fn stem(year: i32) -> (stem: usize)
    ensures
        stem as int == stem_of(year as int),
        stem < 10,
{
    (((year as i64 - 1984) % 10 + 10) % 10) as usize
}

/// The place of `year` among the twelve earthly branches.
pub fn branch(year: i32) -> (branch: usize)
    ensures
        branch as int == branch_of(year as int),
        branch < 12,
{
    (((year as i64 - 1984) % 12 + 12) % 12) as usize
}

/// The stem, the branch and the animal of `year`, one character each.
pub fn year_signs(year: i32, traditional: bool) -> (text: String)
    ensures
        text@ == year_signs_text(year as int, traditional),
{
    proof {
        reveal_strlit("甲乙丙丁戊己庚辛壬癸");
        reveal_strlit("子丑寅卯辰巳午未申酉戌亥");
        reveal_strlit("鼠牛虎兔龙蛇马羊猴鸡狗猪");
        reveal_strlit("鼠牛虎兔龍蛇馬羊猴雞狗豬");
    }
    let stem = stem(year);
    let branch = branch(year);
    let mut text = String::from_str(TIANGAN.substring_char(stem, stem + 1));
    text.append(DIZHI.substring_char(branch, branch + 1));
    if traditional {
        text.append(SHENGXIAO_T.substring_char(branch, branch + 1));
    } else {
        text.append(SHENGXIAO_S.substring_char(branch, branch + 1));
    }
    text
}

/// The numeral of Chinese month `month`.
pub fn month_numeral(month: u8) -> (text: &'static str)
    requires
        1 <= month <= 12,
    ensures
        text@ == month_numeral_text(month as int),
{
    proof {
        reveal_strlit("一二三四五六七八九十");
    }
    if month == 1 {
        "正"
    } else if month <= 10 {
        NUMBER.substring_char(month as usize - 1, month as usize)
    } else if month == 11 {
        "十一"
    } else {
        "十二"
    }
}

/// The name of day `day` of a Chinese month.
pub fn day_numeral(day: u8) -> (text: String)
    requires
        1 <= day <= 30,
    ensures
        text@ == day_numeral_text(day as int),
{
    proof {
        reveal_strlit("一二三四五六七八九十");
    }
    let day = day as usize;
    if day <= 10 {
        let mut text = String::from_str("初");
        text.append(NUMBER.substring_char(day - 1, day));
        text
    } else if day <= 19 {
        let mut text = String::from_str("十");
        text.append(NUMBER.substring_char(day - 11, day - 10));
        text
    } else if day == 20 {
        String::from_str("二十")
    } else if day <= 29 {
        let mut text = String::from_str("廿");
        text.append(NUMBER.substring_char(day - 21, day - 20));
        text
    } else {
        String::from_str("三十")
    }
}

/// `text`, cut to five characters and a full stop if it has more than six.
pub fn cut_short(text: &str) -> (cut: String)
    ensures
        cut@ == cut_to_five(text@),
{
    if text.unicode_len() > 6 {
        let mut cut = String::from_str(text.substring_char(0, 5));
        cut.append(".");
        cut
    } else {
        String::from_str(text)
    }
}

impl Translate for ChineseYear {
    open spec fn translatable(&self, language: Language) -> bool {
        true
    }

    open spec fn translation(&self, language: Language) -> Seq<char> {
        let year = self.0 as int;
        match language {
            Language::English => TIANGAN_EN@[stem_of(year)]@ + DIZHI_EN@[branch_of(year)]@
                + " Year of the "@ + SHENGXIAO_EN@[branch_of(year)]@,
            Language::ChineseSimplified => year_signs_text(year, false) + "年"@,
            Language::ChineseTraditional => year_signs_text(year, true) + "年"@,
        }
    }

    fn translate_to_string(&self, language: Language) -> (text: String) {
        match language {
            Language::English => {
                let stem = stem(self.0);
                let branch = branch(self.0);
                let mut text = String::from_str(TIANGAN_EN[stem]);
                text.append(DIZHI_EN[branch]);
                text.append(" Year of the ");
                text.append(SHENGXIAO_EN[branch]);
                text
            },
            Language::ChineseSimplified => {
                let mut text = year_signs(self.0, false);
                text.append("年");
                text
            },
            Language::ChineseTraditional => {
                let mut text = year_signs(self.0, true);
                text.append("年");
                text
            },
        }
    }
}

impl Translate for ChineseMonth {
    open spec fn translatable(&self, language: Language) -> bool {
        language == Language::English || 1 <= self.0 <= 12
    }

    open spec fn translation(&self, language: Language) -> Seq<char> {
        match language {
            Language::English => decimal_text(self.0 as int) + if self.1 {
                "+"@
            } else {
                ""@
            },
            Language::ChineseSimplified => (if self.1 {
                "闰"@
            } else {
                ""@
            }) + month_numeral_text(self.0 as int) + "月"@,
            Language::ChineseTraditional => (if self.1 {
                "閏"@
            } else {
                ""@
            }) + month_numeral_text(self.0 as int) + "月"@,
        }
    }

    fn translate_to_string(&self, language: Language) -> (text: String) {
        match language {
            Language::English => {
                let mut text = decimal(self.0 as i64);
                text.append(
                    if self.1 {
                        "+"
                    } else {
                        ""
                    },
                );
                text
            },
            Language::ChineseSimplified => {
                let mut text = String::from_str(
                    if self.1 {
                        "闰"
                    } else {
                        ""
                    },
                );
                text.append(month_numeral(self.0));
                text.append("月");
                text
            },
            Language::ChineseTraditional => {
                let mut text = String::from_str(
                    if self.1 {
                        "閏"
                    } else {
                        ""
                    },
                );
                text.append(month_numeral(self.0));
                text.append("月");
                text
            },
        }
    }
}

impl Translate for ChineseDay {
    open spec fn translatable(&self, language: Language) -> bool {
        language == Language::English || 1 <= self.0 <= 30
    }

    open spec fn translation(&self, language: Language) -> Seq<char> {
        if language == Language::English {
            decimal_text(self.0 as int)
        } else {
            day_numeral_text(self.0 as int)
        }
    }

    fn translate_to_string(&self, language: Language) -> (text: String) {
        match language {
            Language::English => decimal(self.0 as i64),
            _ => day_numeral(self.0),
        }
    }
}

impl ShortTranslate for Month {
    open spec fn short_translatable(&self, language: Language) -> bool {
        true
    }

    open spec fn short_translation(&self, language: Language) -> Seq<char> {
        if language == Language::English {
            MONTH_NAMES@[self.spec_number() - 1]@.subrange(0, 3)
        } else {
            self.static_translation(language)
        }
    }

    fn short_translate(&self, language: Language) -> (text: String) {
        proof {
            reveal_strlit("January");
            reveal_strlit("February");
            reveal_strlit("March");
            reveal_strlit("April");
            reveal_strlit("May");
            reveal_strlit("June");
            reveal_strlit("July");
            reveal_strlit("August");
            reveal_strlit("September");
            reveal_strlit("October");
            reveal_strlit("November");
            reveal_strlit("December");
        }
        match language {
            Language::English => String::from_str(
                MONTH_NAMES[self.as_number() as usize - 1].substring_char(0, 3),
            ),
            _ => String::from_str(self.static_translate(language)),
        }
    }
}

impl Translate for Month {
    open spec fn translatable(&self, language: Language) -> bool {
        true
    }

    open spec fn translation(&self, language: Language) -> Seq<char> {
        if language == Language::English {
            MONTH_NAMES@[self.spec_number() - 1]@
        } else {
            self.short_translation(language) + "月"@
        }
    }

    fn translate_to_string(&self, language: Language) -> (text: String) {
        match language {
            Language::English => String::from_str(MONTH_NAMES[self.as_number() as usize - 1]),
            _ => {
                let mut text = self.short_translate(language);
                text.append("月");
                text
            },
        }
    }
}

impl ShortTranslate for Day {
    open spec fn short_translatable(&self, language: Language) -> bool {
        true
    }

    open spec fn short_translation(&self, language: Language) -> Seq<char> {
        self.static_translation(language)
    }

    fn short_translate(&self, language: Language) -> (text: String) {
        String::from_str(self.static_translate(language))
    }
}

impl Translate for Day {
    open spec fn translatable(&self, language: Language) -> bool {
        true
    }

    open spec fn translation(&self, language: Language) -> Seq<char> {
        if language == Language::English {
            DAY_NAMES@[self.spec_number()]@
        } else {
            "星期"@ + self.short_translation(language)
        }
    }

    fn translate_to_string(&self, language: Language) -> (text: String) {
        match language {
            Language::English => String::from_str(DAY_NAMES[self.as_number() as usize]),
            _ => {
                let mut text = String::from_str("星期");
                let short = self.short_translate(language);
                text.append(short.as_str());
                text
            },
        }
    }
}

/// A space and the Chinese year, where the Chinese calendar is asked for.
fn year_suffix(year: i32, enable_chinese: bool, language: Language) -> (text: String)
    ensures
        text@ == chinese_year_suffix(year as int, enable_chinese, language),
{
    if enable_chinese {
        let mut text = String::from_str(" ");
        let chinese = ChineseYear(year).translate_to_string(language);
        text.append(chinese.as_str());
        text
    } else {
        String::new()
    }
}

impl Translate for MonthTitle {
    open spec fn translatable(&self, language: Language) -> bool {
        true
    }

    open spec fn translation(&self, language: Language) -> Seq<char> {
        (if language == Language::English {
            self.month.translation(language) + " "@ + decimal_text(self.year as int)
        } else {
            decimal_text(self.year as int) + "年 "@ + self.month.translation(language)
        }) + chinese_year_suffix(self.year as int, self.enable_chinese, language)
    }

    fn translate_to_string(&self, language: Language) -> (text: String) {
        let year = decimal(self.year as i64);
        let month = self.month.translate_to_string(language);
        let mut text = match language {
            Language::English => {
                let mut text = month;
                text.append(" ");
                text.append(year.as_str());
                text
            },
            _ => {
                let mut text = year;
                text.append("年 ");
                text.append(month.as_str());
                text
            },
        };
        let suffix = year_suffix(self.year, self.enable_chinese, language);
        text.append(suffix.as_str());
        text
    }
}

impl Translate for YearTitle {
    open spec fn translatable(&self, language: Language) -> bool {
        true
    }

    open spec fn translation(&self, language: Language) -> Seq<char> {
        (if language == Language::English {
            decimal_text(self.year as int)
        } else {
            decimal_text(self.year as int) + "年"@
        }) + chinese_year_suffix(self.year as int, self.enable_chinese, language)
    }

    fn translate_to_string(&self, language: Language) -> (text: String) {
        let mut text = decimal(self.year as i64);
        match language {
            Language::English => {},
            _ => {
                text.append("年");
            },
        }
        let suffix = year_suffix(self.year, self.enable_chinese, language);
        text.append(suffix.as_str());
        text
    }
}

impl Translate for ChineseDate {
    open spec fn translatable(&self, language: Language) -> bool {
        true
    }

    open spec fn translation(&self, language: Language) -> Seq<char> {
        let parts = self@;
        year_signs_text(parts.year, false) + "年"@ + (if parts.leap {
            "闰"@
        } else {
            ""@
        }) + ChineseMonth(parts.month as u8, parts.leap).translation(language) + "月"@
            + ChineseDay(parts.day as u8).translation(language)
    }

    fn translate_to_string(&self, language: Language) -> (text: String) {
        let mut text = year_signs(self.year(), false);
        text.append("年");
        text.append(
            if self.leap() {
                "闰"
            } else {
                ""
            },
        );
        let month = ChineseMonth(self.month(), self.leap()).translate_to_string(language);
        text.append(month.as_str());
        text.append("月");
        proof {
            crate::chinese_date::lemma_days_before_step(
                crate::tables::year_word(self@.year),
                crate::year_data::slot_of(
                    crate::tables::year_word(self@.year),
                    self@.month,
                    self@.leap,
                ),
            );
        }
        let day = ChineseDay(self.day()).translate_to_string(language);
        text.append(day.as_str());
        text
    }
}

impl ShortTranslate for ChineseDate {
    open spec fn short_translatable(&self, language: Language) -> bool {
        true
    }

    open spec fn short_translation(&self, language: Language) -> Seq<char> {
        let parts = self@;
        if parts.day == 1 {
            ChineseMonth(parts.month as u8, parts.leap).translation(language)
        } else {
            ChineseDay(parts.day as u8).translation(language)
        }
    }

    /// The month on the first day of a month, else the day.
    fn short_translate(&self, language: Language) -> (text: String) {
        let day = self.day();
        if day == 1 {
            ChineseMonth(self.month(), self.leap()).translate_to_string(language)
        } else {
            proof {
                crate::chinese_date::lemma_days_before_step(
                    crate::tables::year_word(self@.year),
                    crate::year_data::slot_of(
                        crate::tables::year_word(self@.year),
                        self@.month,
                        self@.leap,
                    ),
                );
            }
            ChineseDay(day).translate_to_string(language)
        }
    }
}

impl Translate for SolarTerm {
    open spec fn translatable(&self, language: Language) -> bool {
        true
    }

    open spec fn translation(&self, language: Language) -> Seq<char> {
        self.static_translation(language)
    }

    fn translate_to_string(&self, language: Language) -> (text: String) {
        let name = self.static_translate(language);
        assert(self.translation(language) == self.static_translation(language));
        String::from_str(name)
    }
}

impl ShortTranslate for SolarTerm {
    open spec fn short_translatable(&self, language: Language) -> bool {
        true
    }

    open spec fn short_translation(&self, language: Language) -> Seq<char> {
        if language == Language::English {
            cut_to_five(self.static_translation(language))
        } else {
            self.static_translation(language)
        }
    }

    fn short_translate(&self, language: Language) -> (text: String) {
        match language {
            Language::English => cut_short(self.static_translate(language)),
            _ => self.translate_to_string(language),
        }
    }
}

impl Translate for Festival {
    open spec fn translatable(&self, language: Language) -> bool {
        true
    }

    open spec fn translation(&self, language: Language) -> Seq<char> {
        self.static_translation(language)
    }

    fn translate_to_string(&self, language: Language) -> (text: String) {
        String::from_str(self.static_translate(language))
    }
}

impl ShortTranslate for Festival {
    open spec fn short_translatable(&self, language: Language) -> bool {
        true
    }

    open spec fn short_translation(&self, language: Language) -> Seq<char> {
        let text = self.static_translation(language);
        if language == Language::English {
            cut_to_five(text)
        } else if text.len() > 3 {
            text.subrange(0, 2) + ".."@
        } else {
            text
        }
    }

    fn short_translate(&self, language: Language) -> (text: String) {
        let translation = self.static_translate(language);
        match language {
            Language::English => cut_short(translation),
            _ => if translation.unicode_len() > 3 {
                let mut text = String::from_str(translation.substring_char(0, 2));
                text.append("..");
                text
            } else {
                String::from_str(translation)
            },
        }
    }
}

} // verus!
