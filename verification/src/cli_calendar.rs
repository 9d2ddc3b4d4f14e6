//! Laying text out for a terminal: how wide a text is shown, padding it to
//! a width, and setting texts side by side line by line.

use vstd::prelude::*;
use vstd::utf8::{char_is_scalar, encode_utf8};

use crate::calendar::{Calendar, Cell, Options};
use crate::chinese_date::{gregorian_to_parts, ChineseDate};
use crate::civil::{weekday_number, CivilDate};
use crate::date::Day;
use crate::festivals::{festival_on, Festival};
use crate::language::{Language, ShortTranslate};
use crate::solar_term::{term_on, SolarTerm};

verus! {

/// Width of a day's cell where the Chinese calendar is shown.
pub const CELL_WIDTH_WITH_CHINESE: usize = 6;

/// Width of a day's cell where it is not.
pub const CELL_WIDTH_WITHOUT_CHINESE: usize = 4;

/// Where a text stands in a space wider than itself.
#[derive(Clone, Copy, Debug)]
pub enum Alignment {
    Left,
    Center,
}

/// A text to show in a given width.
#[derive(Clone, Copy, Debug)]
pub struct Aligned<'a>(pub &'a str, pub Alignment, pub usize);

/// Texts to set side by side, line by line.
#[derive(Clone, Copy, Debug)]
pub struct ZipByLine<'a>(pub &'a [&'a str]);

/// Columns a character takes on a terminal: two for a Chinese character,
/// one for any other.
pub open spec fn char_width(c: char) -> nat {
    if 0x4e00 <= c as u32 <= 0x9fff {
        2
    } else {
        1
    }
}

/// Columns a text takes on a terminal.
pub open spec fn text_width(text: Seq<char>) -> nat
    decreases text.len(),
{
    if text.len() == 0 {
        0
    } else {
        char_width(text[0]) + text_width(text.drop_first())
    }
}

/// `count` spaces.
pub open spec fn spaces_text(count: nat) -> Seq<char> {
    Seq::new(count, |i: int| ' ')
}

/// Spaces to put before a text that is `width` columns wide to show it in
/// `room` columns.
pub open spec fn padding_left(alignment: Alignment, width: nat, room: nat) -> nat {
    match alignment {
        Alignment::Left => 0,
        Alignment::Center => ((room - width) / 2) as nat,
    }
}

/// A text padded with spaces to `room` columns; as it is where it is no
/// narrower than that.
pub open spec fn aligned_text(text: Seq<char>, alignment: Alignment, room: nat) -> Seq<char> {
    let width = text_width(text);
    if width >= room {
        text
    } else {
        let left = padding_left(alignment, width, room);
        spaces_text(left) + text + spaces_text((room - width - left) as nat)
    }
}

/// The lines of a text, as `str::lines` gives them.
pub uninterp spec fn text_lines(text: Seq<char>) -> Seq<Seq<char>>;

/// Row `row` of texts set side by side: line `row` of each text that has
/// one, from the text at `from` on.
pub open spec fn zipped_row(lines: Seq<Seq<Seq<char>>>, row: int, from: int) -> Seq<char>
    decreases lines.len() - from,
{
    if from < 0 || from >= lines.len() {
        Seq::<char>::empty()
    } else if row < lines[from].len() {
        lines[from][row] + zipped_row(lines, row, from + 1)
    } else {
        zipped_row(lines, row, from + 1)
    }
}

/// Whether one of the texts from `from` on has a line `row`.
pub open spec fn has_row(lines: Seq<Seq<Seq<char>>>, row: int, from: int) -> bool
    decreases lines.len() - from,
{
    if from < 0 || from >= lines.len() {
        false
    } else {
        row < lines[from].len() || has_row(lines, row, from + 1)
    }
}

/// The length of the longest of the texts from `from` on, in lines.
pub open spec fn most_lines(lines: Seq<Seq<Seq<char>>>, from: int) -> nat
    decreases lines.len() - from,
{
    if from < 0 || from >= lines.len() {
        0
    } else if lines[from].len() >= most_lines(lines, from + 1) {
        lines[from].len()
    } else {
        most_lines(lines, from + 1)
    }
}

/// Texts set side by side from row `row` on: each row that some text has,
/// followed by a line feed.
pub open spec fn zipped_text(lines: Seq<Seq<Seq<char>>>, row: int) -> Seq<char>
    decreases most_lines(lines, 0) - row,
{
    if 0 <= row < most_lines(lines, 0) {
        zipped_row(lines, row, 0) + seq!['\n'] + zipped_text(lines, row + 1)
    } else {
        Seq::<char>::empty()
    }
}

/// A text is no wider in columns than it is long in bytes.
pub proof fn lemma_width_within_bytes(text: Seq<char>)
    ensures
        text_width(text) <= encode_utf8(text).len(),
    decreases text.len(),
{
    if text.len() > 0 {
        char_is_scalar(text[0]);
        lemma_width_within_bytes(text.drop_first());
    }
}

/// Some text from `from` on has a line `row` just when the longest of them
/// has more than `row` lines.
pub proof fn lemma_has_row(lines: Seq<Seq<Seq<char>>>, row: int, from: int)
    requires
        0 <= row,
    ensures
        has_row(lines, row, from) <==> row < most_lines(lines, from),
    decreases lines.len() - from,
{
    if 0 <= from < lines.len() {
        lemma_has_row(lines, row, from + 1);
    }
}

/// Where no text has a line `row`, the row is empty.
pub proof fn lemma_no_row(lines: Seq<Seq<Seq<char>>>, row: int, from: int)
    requires
        !has_row(lines, row, from),
    ensures
        zipped_row(lines, row, from) == Seq::<char>::empty(),
    decreases lines.len() - from,
{
    if 0 <= from < lines.len() {
        lemma_no_row(lines, row, from + 1);
    }
}

/// Columns `s` takes on a terminal.
pub fn rendered_width(s: &str) -> (width: usize)
    ensures
        width as nat == text_width(s@),
{
    let length = s.unicode_len();
    let bytes = s.as_bytes().len();
    proof {
        lemma_width_within_bytes(s@);
        assert(s@.subrange(0, length as int) =~= s@);
    }
    let mut width: usize = 0;
    let mut at: usize = 0;
    while at < length
        invariant
            at <= length,
            length == s@.len(),
            width + text_width(s@.subrange(at as int, length as int)) == text_width(s@),
            text_width(s@) <= usize::MAX,
        decreases length - at,
    {
        let code = s.get_char(at) as u32;
        proof {
            assert(s@.subrange(at as int, length as int).drop_first() =~= s@.subrange(
                at + 1,
                length as int,
            ));
        }
        if 0x4e00 <= code && code <= 0x9fff {
            width = width + 2;
        } else {
            width = width + 1;
        }
        at = at + 1;
    }
    width
}

/// Width of a day's cell under `options`.
pub fn cell_width(options: &Options) -> (width: usize)
    ensures
        width == if options.enable_chinese {
            CELL_WIDTH_WITH_CHINESE
        } else {
            CELL_WIDTH_WITHOUT_CHINESE
        },
{
    if options.enable_chinese {
        CELL_WIDTH_WITH_CHINESE
    } else {
        CELL_WIDTH_WITHOUT_CHINESE
    }
}

/// Puts `count` spaces at the end of `text`.
pub fn push_spaces(text: &mut String, count: usize)
    ensures
        final(text)@ == old(text)@ + spaces_text(count as nat),
{
    let ghost before = text@;
    let mut done: usize = 0;
    proof {
        assert(before + spaces_text(0) =~= before);
    }
    while done < count
        invariant
            done <= count,
            text@ == before + spaces_text(done as nat),
        decreases count - done,
    {
        proof {
            reveal_strlit(" ");
            assert(before + spaces_text(done as nat) + " "@ =~= before + spaces_text(
                (done + 1) as nat,
            ));
        }
        text.append(" ");
        done = done + 1;
    }
}

impl<'a> Aligned<'a> {
    /// The text padded with spaces to the width held, on the right or on
    /// both sides; as it is where it is no narrower.
    pub fn render(&self) -> (text: String)
        ensures
            text@ == aligned_text(self.0@, self.1, self.2 as nat),
    {
        let width = rendered_width(self.0);
        if width >= self.2 {
            return String::from_str(self.0);
        }
        let room = self.2 - width;
        let left = match self.1 {
            Alignment::Left => 0,
            Alignment::Center => room / 2,
        };
        let mut text = String::new();
        push_spaces(&mut text, left);
        text.append(self.0);
        push_spaces(&mut text, room - left);
        proof {
            assert(Seq::<char>::empty() + spaces_text(left as nat) =~= spaces_text(left as nat));
        }
        text
    }
}

/// `str::lines`, each line copied into a `String`. Claimed: the same text
/// always gives the same lines, named `text_lines`.
#[verifier::external_body]
fn lines_of(text: &str) -> (lines: Vec<String>)
    ensures
        lines@.len() == text_lines(text@).len(),
        forall|i: int| 0 <= i < lines@.len() ==> (#[trigger] lines@[i])@ == text_lines(text@)[i],
{
    let mut lines = Vec::new();
    for line in text.lines() {
        lines.push(line.to_string());
    }
    lines
}

/// What the lines of each text are: the view of lines split off texts.
pub open spec fn lines_view(lines: Seq<Vec<String>>) -> Seq<Seq<Seq<char>>> {
    Seq::new(lines.len(), |i: int| Seq::new(lines[i]@.len(), |j: int| lines[i]@[j]@))
}

/// Sets texts, given by their lines, side by side: row by row, line `row`
/// of each text that has one, then a line feed.
pub fn zip_lines(lines: &Vec<Vec<String>>) -> (text: String)
    ensures
        text@ == zipped_text(lines_view(lines@), 0),
{
    let ghost view = lines_view(lines@);
    let mut text = String::new();
    let mut row: usize = 0;
    loop
        invariant_except_break
            text@ + zipped_text(view, row as int) == zipped_text(view, 0),
        invariant
            view == lines_view(lines@),
        ensures
            text@ == zipped_text(view, 0),
        decreases most_lines(view, 0) - row,
    {
        let ghost before = text@;
        let mut go_ahead = false;
        let mut at: usize = 0;
        while at < lines.len()
            invariant
                at <= lines.len(),
                view == lines_view(lines@),
                text@ + zipped_row(view, row as int, at as int) == before + zipped_row(
                    view,
                    row as int,
                    0,
                ),
                go_ahead || has_row(view, row as int, at as int) <==> has_row(view, row as int, 0),
                go_ahead ==> row < usize::MAX,
            decreases lines.len() - at,
        {
            if row < lines[at].len() {
                proof {
                    assert(text@ + (view[at as int][row as int] + zipped_row(
                        view,
                        row as int,
                        at + 1,
                    )) =~= text@ + view[at as int][row as int] + zipped_row(
                        view,
                        row as int,
                        at + 1,
                    ));
                }
                text.append(lines[at][row].as_str());
                go_ahead = true;
            }
            at = at + 1;
        }
        proof {
            lemma_has_row(view, row as int, 0);
            assert(text@ + Seq::<char>::empty() =~= text@);
        }
        if !go_ahead {
            proof {
                lemma_no_row(view, row as int, 0);
                assert(before + Seq::<char>::empty() =~= before);
            }
            break ;
        }
        proof {
            reveal_strlit("\n");
            assert("\n"@ =~= seq!['\n']);
            assert(before + (zipped_row(view, row as int, 0) + seq!['\n'] + zipped_text(
                view,
                row + 1,
            )) =~= text@ + seq!['\n'] + zipped_text(view, row + 1));
        }
        text.append("\n");
        row = row + 1;
    }
    text
}

/// The lines of each of some texts.
pub open spec fn lines_of_texts(texts: Seq<&str>) -> Seq<Seq<Seq<char>>> {
    Seq::new(texts.len(), |i: int| text_lines(texts[i]@))
}

impl<'a> ZipByLine<'a> {
    /// The texts set side by side, line by line.
    pub fn render(&self) -> (text: String)
        ensures
            text@ == zipped_text(lines_of_texts(self.0@), 0),
    {
        let mut lines: Vec<Vec<String>> = Vec::new();
        let mut at: usize = 0;
        while at < self.0.len()
            invariant
                at <= self.0.len(),
                lines@.len() == at,
                forall|i: int|
                    0 <= i < at ==> #[trigger] lines_view(lines@)[i] =~= text_lines(self.0@[i]@),
            decreases self.0.len() - at,
        {
            let ghost before = lines@;
            lines.push(lines_of(self.0[at]));
            proof {
                assert forall|i: int| 0 <= i < at + 1 implies #[trigger] lines_view(lines@)[i]
                    =~= text_lines(self.0@[i]@) by {
                    if i < at {
                        assert(lines_view(before)[i] =~= text_lines(self.0@[i]@));
                        assert(lines@[i] == before[i]);
                    }
                }
            }
            at = at + 1;
        }
        proof {
            assert(lines_view(lines@) =~= lines_of_texts(self.0@));
        }
        zip_lines(&lines)
    }
}

/// What a part of the calendar is coloured for.
#[derive(Clone, Copy, Debug, PartialEq, Eq, Structural)]
pub enum Tint {
    Weekend,
    Festival,
    NewMonth,
    SolarTerm,
}

/// How a part of the calendar is coloured: the colour of the text if it
/// has one, and whether it stands on white, or with text and ground
/// exchanged.
#[derive(Clone, Copy, Debug, PartialEq, Eq, Structural)]
pub struct Paint {
    pub foreground: Option<Tint>,
    pub on_white: bool,
    pub inverted: bool,
}

/// How the number of a day is coloured: a weekend day in the weekend
/// colour, today on white if it is a weekend day, else exchanged.
pub fn day_paint(today: bool, weekend: bool) -> (paint: Paint)
    ensures
        paint.foreground == (if weekend {
            Some(Tint::Weekend)
        } else {
            None::<Tint>
        }),
        paint.on_white == (today && weekend),
        paint.inverted == (today && !weekend),
{
    if today {
        if weekend {
            Paint { foreground: Some(Tint::Weekend), on_white: true, inverted: false }
        } else {
            Paint { foreground: None, on_white: false, inverted: true }
        }
    } else if weekend {
        Paint { foreground: Some(Tint::Weekend), on_white: false, inverted: false }
    } else {
        Paint { foreground: None, on_white: false, inverted: false }
    }
}

/// How what stands under the number of a day is coloured: in its own
/// colour if it has one, else in the weekend colour on a weekend day;
/// today on white if it has any colour, else exchanged.
pub fn label_paint(today: bool, weekend: bool, tint: Option<Tint>) -> (paint: Paint)
    ensures
        paint.foreground == (if tint is Some {
            tint
        } else if weekend {
            Some(Tint::Weekend)
        } else {
            None::<Tint>
        }),
        paint.on_white == (today && (tint is Some || weekend)),
        paint.inverted == (today && !(tint is Some || weekend)),
{
    let foreground = match tint {
        Some(tint) => Some(tint),
        None => if weekend {
            Some(Tint::Weekend)
        } else {
            None
        },
    };
    let coloured = tint.is_some() || weekend;
    Paint { foreground, on_white: today && coloured, inverted: today && !coloured }
}

/// What stands under the number of a day, and what it is coloured for: the
/// festival of the day, else its solar term, else its Chinese date, which
/// is coloured on the first day of a month; nothing for a day without a
/// Chinese date.
pub open spec fn cell_label_text(cell: Cell, language: Language) -> (Seq<char>, Option<Tint>) {
    match cell.chinese_date {
        Some(date) => match festival_on(date@) {
            Some(festival) => (festival.short_translation(language), Some(Tint::Festival)),
            None => match cell.solar_term {
                Some(term) => (term.short_translation(language), Some(Tint::SolarTerm)),
                None => (
                    date.short_translation(language),
                    if date@.day == 1 {
                        Some(Tint::NewMonth)
                    } else {
                        None
                    },
                ),
            },
        },
        None => (Seq::<char>::empty(), None),
    }
}

/// What stands under the number of a day, and what it is coloured for.
pub fn cell_label(cell: &Cell, language: Language) -> (label: (String, Option<Tint>))
    ensures
        label.0@ == cell_label_text(*cell, language).0,
        label.1 == cell_label_text(*cell, language).1,
{
    match cell.chinese_date {
        Some(date) => match Festival::from_chinese_date(date) {
            Some(festival) => (festival.short_translate(language), Some(Tint::Festival)),
            None => match cell.solar_term {
                Some(term) => (term.short_translate(language), Some(Tint::SolarTerm)),
                None => (
                    date.short_translate(language),
                    if date.day() == 1 {
                        Some(Tint::NewMonth)
                    } else {
                        None
                    },
                ),
            },
        },
        None => (String::new(), None),
    }
}

/// One day of a calendar written as a list.
#[derive(Clone, Copy, Debug, PartialEq, Eq)]
pub struct ListEntry {
    pub date: CivilDate,
    pub weekday: Day,
    pub today: bool,
    pub weekend: bool,
    pub chinese_date: Option<ChineseDate>,
    pub festival: Option<Festival>,
    pub solar_term: Option<SolarTerm>,
}

/// What the list shows of day `day` of a calendar's month: its day of the
/// week; whether it is a weekend day; whether it is today, for which the
/// year and the day of the month count and the month does not; and, where
/// the Chinese calendar is asked for, its Chinese date with the festival
/// of that date, and its solar term.
pub open spec fn list_shows(calendar: Calendar, entry: ListEntry, day: int) -> bool {
    let year = calendar.spec_year();
    let month = calendar.spec_month().spec_number();
    let date = CivilDate { year: year as i32, month: month as u32, day: day as u32 };
    &&& entry.date == date
    &&& entry.weekday.spec_number() == weekday_number(year, month, day)
    &&& entry.weekend == (entry.weekday == Day::Sunday || entry.weekday == Day::Saturday)
    &&& entry.today == (calendar.spec_today() matches Some(today) && today.year == year
        && today.day == day)
    &&& if calendar.spec_options().enable_chinese {
        &&& entry.chinese_date is Some <==> gregorian_to_parts(year, date.spec_ordinal0()) is Some
        &&& entry.chinese_date matches Some(chinese) ==> gregorian_to_parts(
            year,
            date.spec_ordinal0(),
        ) == Some(chinese@) && entry.festival == festival_on(chinese@)
        &&& entry.chinese_date is None ==> entry.festival is None
        &&& entry.solar_term is Some <==> term_on(year, month, day) is Some
        &&& entry.solar_term matches Some(term) ==> term_on(year, month, day) == Some(
            term.spec_ordinal(),
        )
    } else {
        entry.chinese_date is None && entry.festival is None && entry.solar_term is None
    }
}

/// What the list shows of day `day` of a calendar's month; nothing for a
/// day the month does not have.
pub fn list_entry(calendar: &Calendar, day: u8) -> (entry: Option<ListEntry>)
    ensures
        entry is Some <==> (CivilDate {
            year: calendar.spec_year() as i32,
            month: calendar.spec_month().spec_number() as u32,
            day: day as u32,
        }).spec_exists(),
        entry matches Some(e) ==> list_shows(*calendar, e, day as int),
{
    let year = calendar.year();
    let date = CivilDate { year, month: calendar.month().as_number() as u32, day: day as u32 };
    let weekday = match date.weekday() {
        Some(weekday) => weekday,
        None => {
            return None;
        },
    };
    let today = match calendar.today() {
        Some(today) => today.year == year && today.day == date.day,
        None => false,
    };
    let (chinese_date, solar_term) = if calendar.options().enable_chinese {
        (
            ChineseDate::from_gregorian(year, date.ordinal0()),
            SolarTerm::from_date(year, date.month, date.day),
        )
    } else {
        (None, None)
    };
    let festival = match chinese_date {
        Some(chinese) => Festival::from_chinese_date(chinese),
        None => None,
    };
    Some(
        ListEntry {
            date,
            weekday,
            today,
            weekend: crate::is_weekend(weekday),
            chinese_date,
            festival,
            solar_term,
        },
    )
}

} // verus!
