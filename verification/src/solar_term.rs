//! The twenty-four solar terms, and the days of 1900 to 2100 on which
//! they fall.

use vstd::prelude::*;

use crate::term_table::{lemma_terms_in_order, term_day, term_day_of};
use crate::year_data::in_range;

verus! {

/// A solar term. The year's first is Xiaohan, in early January; two fall
/// in each month.
#[derive(Clone, Copy, Debug, PartialEq, Eq)]
pub enum SolarTerm {
    Xiaohan,
    Dahan,
    Lichun,
    Yushui,
    Jingzhe,
    Chunfen,
    Qingming,
    Guyu,
    Lixia,
    Xiaoman,
    Mangzhong,
    Xiazhi,
    Xiaoshu,
    Dashu,
    Liqiu,
    Chushu,
    Bailu,
    Qiufen,
    Hanlu,
    Shuangjiang,
    Lidong,
    Xiaoxue,
    Daxue,
    Dongzhi,
}

/// The number of the term that falls on the given day, if one does: of the
/// two terms of the month, the first if the day is its day, else the
/// second if the day is its day.
pub open spec fn term_on(year: int, month: int, day: int) -> Option<int> {
    if in_range(year) && 1 <= month <= 12 {
        let first = 2 * (month - 1);
        if day == term_day(year, first) {
            Some(first)
        } else if day == term_day(year, first + 1) {
            Some(first + 1)
        } else {
            None
        }
    } else {
        None
    }
}

impl SolarTerm {
    /// The place of the term in the year, from 0 for Xiaohan to 23 for
    /// Dongzhi.
    pub open spec fn spec_ordinal(self) -> int {
        match self {
            SolarTerm::Xiaohan => 0,
            SolarTerm::Dahan => 1,
            SolarTerm::Lichun => 2,
            SolarTerm::Yushui => 3,
            SolarTerm::Jingzhe => 4,
            SolarTerm::Chunfen => 5,
            SolarTerm::Qingming => 6,
            SolarTerm::Guyu => 7,
            SolarTerm::Lixia => 8,
            SolarTerm::Xiaoman => 9,
            SolarTerm::Mangzhong => 10,
            SolarTerm::Xiazhi => 11,
            SolarTerm::Xiaoshu => 12,
            SolarTerm::Dashu => 13,
            SolarTerm::Liqiu => 14,
            SolarTerm::Chushu => 15,
            SolarTerm::Bailu => 16,
            SolarTerm::Qiufen => 17,
            SolarTerm::Hanlu => 18,
            SolarTerm::Shuangjiang => 19,
            SolarTerm::Lidong => 20,
            SolarTerm::Xiaoxue => 21,
            SolarTerm::Daxue => 22,
            SolarTerm::Dongzhi => 23,
        }
    }

    /// The term whose place in the year is `ordinal`.
    pub open spec fn spec_from_ordinal(ordinal: int) -> Option<SolarTerm> {
        if ordinal == 0 {
            Some(SolarTerm::Xiaohan)
        } else if ordinal == 1 {
            Some(SolarTerm::Dahan)
        } else if ordinal == 2 {
            Some(SolarTerm::Lichun)
        } else if ordinal == 3 {
            Some(SolarTerm::Yushui)
        } else if ordinal == 4 {
            Some(SolarTerm::Jingzhe)
        } else if ordinal == 5 {
            Some(SolarTerm::Chunfen)
        } else if ordinal == 6 {
            Some(SolarTerm::Qingming)
        } else if ordinal == 7 {
            Some(SolarTerm::Guyu)
        } else if ordinal == 8 {
            Some(SolarTerm::Lixia)
        } else if ordinal == 9 {
            Some(SolarTerm::Xiaoman)
        } else if ordinal == 10 {
            Some(SolarTerm::Mangzhong)
        } else if ordinal == 11 {
            Some(SolarTerm::Xiazhi)
        } else if ordinal == 12 {
            Some(SolarTerm::Xiaoshu)
        } else if ordinal == 13 {
            Some(SolarTerm::Dashu)
        } else if ordinal == 14 {
            Some(SolarTerm::Liqiu)
        } else if ordinal == 15 {
            Some(SolarTerm::Chushu)
        } else if ordinal == 16 {
            Some(SolarTerm::Bailu)
        } else if ordinal == 17 {
            Some(SolarTerm::Qiufen)
        } else if ordinal == 18 {
            Some(SolarTerm::Hanlu)
        } else if ordinal == 19 {
            Some(SolarTerm::Shuangjiang)
        } else if ordinal == 20 {
            Some(SolarTerm::Lidong)
        } else if ordinal == 21 {
            Some(SolarTerm::Xiaoxue)
        } else if ordinal == 22 {
            Some(SolarTerm::Daxue)
        } else if ordinal == 23 {
            Some(SolarTerm::Dongzhi)
        } else {
            None
        }
    }

    /// The place of the term in the year, from 0 for Xiaohan to 23 for
    /// Dongzhi.
    pub fn as_ordinal(self) -> (ordinal: u8)
        ensures
            ordinal as int == self.spec_ordinal(),
            ordinal < 24,
    {
        match self {
            SolarTerm::Xiaohan => 0,
            SolarTerm::Dahan => 1,
            SolarTerm::Lichun => 2,
            SolarTerm::Yushui => 3,
            SolarTerm::Jingzhe => 4,
            SolarTerm::Chunfen => 5,
            SolarTerm::Qingming => 6,
            SolarTerm::Guyu => 7,
            SolarTerm::Lixia => 8,
            SolarTerm::Xiaoman => 9,
            SolarTerm::Mangzhong => 10,
            SolarTerm::Xiazhi => 11,
            SolarTerm::Xiaoshu => 12,
            SolarTerm::Dashu => 13,
            SolarTerm::Liqiu => 14,
            SolarTerm::Chushu => 15,
            SolarTerm::Bailu => 16,
            SolarTerm::Qiufen => 17,
            SolarTerm::Hanlu => 18,
            SolarTerm::Shuangjiang => 19,
            SolarTerm::Lidong => 20,
            SolarTerm::Xiaoxue => 21,
            SolarTerm::Daxue => 22,
            SolarTerm::Dongzhi => 23,
        }
    }

    /// The term whose place in the year is `ordinal`; nothing from 24 on.
    pub fn from_ordinal(ordinal: u8) -> (term: Option<Self>)
        ensures
            term == Self::spec_from_ordinal(ordinal as int),
            term is Some <==> ordinal < 24,
            term matches Some(t) ==> t.spec_ordinal() == ordinal,
    {
        match ordinal {
            0 => Some(SolarTerm::Xiaohan),
            1 => Some(SolarTerm::Dahan),
            2 => Some(SolarTerm::Lichun),
            3 => Some(SolarTerm::Yushui),
            4 => Some(SolarTerm::Jingzhe),
            5 => Some(SolarTerm::Chunfen),
            6 => Some(SolarTerm::Qingming),
            7 => Some(SolarTerm::Guyu),
            8 => Some(SolarTerm::Lixia),
            9 => Some(SolarTerm::Xiaoman),
            10 => Some(SolarTerm::Mangzhong),
            11 => Some(SolarTerm::Xiazhi),
            12 => Some(SolarTerm::Xiaoshu),
            13 => Some(SolarTerm::Dashu),
            14 => Some(SolarTerm::Liqiu),
            15 => Some(SolarTerm::Chushu),
            16 => Some(SolarTerm::Bailu),
            17 => Some(SolarTerm::Qiufen),
            18 => Some(SolarTerm::Hanlu),
            19 => Some(SolarTerm::Shuangjiang),
            20 => Some(SolarTerm::Lidong),
            21 => Some(SolarTerm::Xiaoxue),
            22 => Some(SolarTerm::Daxue),
            23 => Some(SolarTerm::Dongzhi),
            _ => None,
        }
    }

    /// The term that falls on day `day` of month `month` (1 to 12) of
    /// Gregorian year `year`. Nothing for a year outside the tables, for a
    /// month that is none of the twelve, and for a day on which no term
    /// falls.
    pub fn from_date(year: i32, month: u32, day: u32) -> (term: Option<SolarTerm>)
        ensures
            term is Some <==> term_on(year as int, month as int, day as int) is Some,
            term matches Some(t) ==> term_on(year as int, month as int, day as int) == Some(
                t.spec_ordinal(),
            ),
    {
        if month < 1 || month > 12 {
            return None;
        }
        let first: u8 = (2 * (month - 1)) as u8;
        let second: u8 = first + 1;
        let (first_day, second_day) = match (term_day_of(year, first), term_day_of(year, second)) {
            (Some(first_day), Some(second_day)) => (first_day, second_day),
            _ => {
                return None;
            },
        };
        if day == first_day as u32 {
            Self::from_ordinal(first)
        } else if day == second_day as u32 {
            Self::from_ordinal(second)
        } else {
            None
        }
    }

    /// Whether the term is the second of its month.
    pub fn is_midterm(self) -> (mid: bool)
        ensures
            mid == (self.spec_ordinal() % 2 == 1),
    {
        self.as_ordinal() % 2 > 0
    }
}

/// A term's place in the year leads back to the term, and no other term
/// has that place.
pub proof fn law_term_ordinal_round_trip(term: SolarTerm)
    ensures
        0 <= term.spec_ordinal() < 24,
        SolarTerm::spec_from_ordinal(term.spec_ordinal()) == Some(term),
{
}

/// Each place from 0 to 23 has a term, whose place it is; no other place
/// has one.
pub proof fn law_term_of_ordinal(ordinal: int)
    ensures
        SolarTerm::spec_from_ordinal(ordinal) is Some <==> 0 <= ordinal < 24,
        SolarTerm::spec_from_ordinal(ordinal) matches Some(term) ==> term.spec_ordinal()
            == ordinal,
{
}

/// A term found on a day falls in the month of that day: the term's place
/// in the year, halved, is the month before.
pub proof fn law_term_in_month(year: int, month: int, day: int)
    requires
        term_on(year, month, day) is Some,
    ensures
        term_on(year, month, day)->0 / 2 == month - 1,
        day == term_day(year, term_on(year, month, day)->0),
{
}

/// Every term falls on a day of its month, and the first term of a month
/// before the second: no day has two terms.
pub proof fn law_one_term_a_day(year: int, month: int)
    requires
        in_range(year),
        1 <= month <= 12,
    ensures
        1 <= term_day(year, 2 * (month - 1)) < term_day(year, 2 * (month - 1) + 1) <= 25,
        forall|day: int|
            term_on(year, month, day) is Some <==> day == term_day(year, 2 * (month - 1)) || day
                == term_day(year, 2 * (month - 1) + 1),
{
    lemma_terms_in_order(year);
    assert(3 <= term_day(year, 2 * (month - 1)));
}

} // verus!
