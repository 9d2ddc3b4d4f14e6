//! The festivals of the Chinese year, by the dates on which they fall.

use vstd::prelude::*;

use crate::chinese_date::{
    days_of_chinese_month, lemma_days_before_grows, lemma_days_before_step, lemma_month_has_slot,
    parts_ordinal, parts_valid, ChineseDate, DateParts,
};
use crate::tables::{lemma_year_fits, year_days, year_word};
use crate::year_data::{slot_count, slot_days, slot_of};

verus! {

/// A festival of the Chinese year.
#[derive(Clone, Copy, Debug, PartialEq, Eq, PartialOrd, Ord)]
#[non_exhaustive]
pub enum Festival {
    Chunjie,
    Yuanxiaojie,
    Duanwujie,
    Zhongqiujie,
    NorthernXiaonian,
    SouthernXiaonian,
    Chuxi,
}

/// The festival that falls on a date: none in a leap month; in the first
/// month Chunjie on the 1st and Yuanxiaojie on the 15th; Duanwujie on the
/// 5th of the fifth; Zhongqiujie on the 15th of the eighth; in the twelfth
/// month the two Xiaonian on the 23rd and 24th and Chuxi on the last day.
pub open spec fn festival_on(parts: DateParts) -> Option<Festival> {
    let word = year_word(parts.year);
    if parts.leap {
        None
    } else if parts.month == 1 && parts.day == 1 {
        Some(Festival::Chunjie)
    } else if parts.month == 1 && parts.day == 15 {
        Some(Festival::Yuanxiaojie)
    } else if parts.month == 5 && parts.day == 5 {
        Some(Festival::Duanwujie)
    } else if parts.month == 8 && parts.day == 15 {
        Some(Festival::Zhongqiujie)
    } else if parts.month == 12 && parts.day == 23 {
        Some(Festival::NorthernXiaonian)
    } else if parts.month == 12 && parts.day == 24 {
        Some(Festival::SouthernXiaonian)
    } else if parts.month == 12 && parts.day == slot_days(word, slot_of(word, 12, false)) {
        Some(Festival::Chuxi)
    } else {
        None
    }
}

impl Festival {
    /// The festival that falls on `date`, if one does.
    pub fn from_chinese_date(date: ChineseDate) -> (festival: Option<Self>)
        ensures
            festival == festival_on(date@),
    {
        if date.leap() {
            return None;
        }
        let day = date.day();
        match date.month() {
            1 => match day {
                1 => Some(Festival::Chunjie),
                15 => Some(Festival::Yuanxiaojie),
                _ => None,
            },
            5 => if day == 5 {
                Some(Festival::Duanwujie)
            } else {
                None
            },
            8 => if day == 15 {
                Some(Festival::Zhongqiujie)
            } else {
                None
            },
            12 => match day {
                23 => Some(Festival::NorthernXiaonian),
                24 => Some(Festival::SouthernXiaonian),
                other => match days_of_chinese_month(date.chinese_year(), date.chinese_month()) {
                    Some(length) => if other == length {
                        Some(Festival::Chuxi)
                    } else {
                        None
                    },
                    None => None,
                },
            },
            _ => None,
        }
    }
}

/// A day is Chuxi just when it is the last day of its Chinese year, and
/// Chunjie just when it is the first.
pub proof fn law_year_ends_with_chuxi(parts: DateParts)
    requires
        parts_valid(parts),
    ensures
        festival_on(parts) == Some(Festival::Chuxi) <==> parts_ordinal(parts)
            == year_days(parts.year) - 1,
        festival_on(parts) == Some(Festival::Chunjie) <==> parts_ordinal(parts) == 0,
{
    let word = year_word(parts.year);
    let slot = slot_of(word, parts.month, parts.leap);
    lemma_year_fits(parts.year);
    lemma_month_has_slot(word, parts.month, parts.leap);
    lemma_days_before_step(word, slot);
    lemma_days_before_grows(word, 0, slot);
    lemma_days_before_grows(word, slot + 1, slot_count(word));
    if slot > 0 {
        lemma_days_before_step(word, 0);
        lemma_days_before_grows(word, 1, slot);
    }
    if slot + 1 < slot_count(word) {
        lemma_days_before_step(word, slot + 1);
        lemma_days_before_grows(word, slot + 2, slot_count(word));
    }
}

} // verus!
