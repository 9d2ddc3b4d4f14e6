//! Reading one year's packed word: the leap month, the length of each
//! month, and the months laid out in calendar order as slots.

use vstd::prelude::*;

use crate::tables::{data, lemma_year_fits, year_word};

verus! {

/// The years the tables cover.
pub open spec fn in_range(year: int) -> bool {
    1900 <= year <= 2100
}

/// 2 to the power `k`, for the seventeen bits a word has.
pub open spec fn two_to(k: int) -> int {
    if k <= 0 {
        1
    } else if k == 1 {
        2
    } else if k == 2 {
        4
    } else if k == 3 {
        8
    } else if k == 4 {
        16
    } else if k == 5 {
        32
    } else if k == 6 {
        64
    } else if k == 7 {
        128
    } else if k == 8 {
        256
    } else if k == 9 {
        512
    } else if k == 10 {
        1024
    } else if k == 11 {
        2048
    } else if k == 12 {
        4096
    } else if k == 13 {
        8192
    } else if k == 14 {
        16384
    } else if k == 15 {
        32768
    } else {
        65536
    }
}

/// Bit `k` (0 to 16) of `word`.
pub open spec fn word_bit(word: int, k: int) -> int {
    (word / two_to(k)) % 2
}

/// A word as the table may hold it: seventeen bits, the low four of which
/// number a month or are zero.
pub open spec fn word_ok(word: int) -> bool {
    0 <= word < 0x20000 && word % 16 <= 12
}

/// Number of the leap month that `word` encodes, 0 when the year has none.
pub open spec fn word_leap(word: int) -> int {
    word % 16
}

/// Whether ordinary month `month` (1 to 12) has 30 days.
pub open spec fn month_long(word: int, month: int) -> bool {
    word_bit(word, 16 - month) == 1
}

/// Whether the leap month has 30 days.
pub open spec fn leap_long(word: int) -> bool {
    word_bit(word, 16) == 1
}

/// Number of months of the year: 13 with a leap month, else 12.
pub open spec fn slot_count(word: int) -> int {
    if word_leap(word) == 0 {
        12
    } else {
        13
    }
}

/// Whether the month in slot `slot` has 30 days. Slots count the months of
/// the year from 0 in calendar order, the leap month right after the
/// month whose number it shares. A slot the year does not have is short.
pub open spec fn slot_long(word: int, slot: int) -> bool {
    let leap = word_leap(word);
    if slot < 0 || slot >= slot_count(word) {
        false
    } else if leap == 0 || slot < leap {
        month_long(word, slot + 1)
    } else if slot == leap {
        leap_long(word)
    } else {
        month_long(word, slot)
    }
}

/// Length in days of the month in slot `slot`.
pub open spec fn slot_days(word: int, slot: int) -> int {
    if slot_long(word, slot) {
        30
    } else {
        29
    }
}

/// Slot of month `month`, leap or not.
pub open spec fn slot_of(word: int, month: int, leap: bool) -> int {
    if word_leap(word) > 0 && (month > word_leap(word) || leap) {
        month
    } else {
        month - 1
    }
}

/// Number of the month in slot `slot`.
pub open spec fn slot_month(word: int, slot: int) -> int {
    if word_leap(word) > 0 && slot >= word_leap(word) {
        slot
    } else {
        slot + 1
    }
}

/// Whether slot `slot` holds the leap month.
pub open spec fn slot_is_leap(word: int, slot: int) -> bool {
    word_leap(word) > 0 && slot == word_leap(word)
}

/// Days of the year that precede the month in slot `slot`.
pub open spec fn days_before(word: int, slot: int) -> int
    decreases slot,
{
    if slot <= 0 {
        0
    } else {
        days_before(word, slot - 1) + slot_days(word, slot - 1)
    }
}

/// Length in days of the year that `word` encodes.
pub open spec fn word_year_days(word: int) -> int {
    days_before(word, slot_count(word))
}

/// Bit `12 - slot` of a thirteen-bit month bitmap.
pub open spec fn bitmap_long(bitmap: int, slot: int) -> bool {
    word_bit(bitmap, 12 - slot) == 1
}

/// A shift and a mask read the bit that `word_bit` names.
pub proof fn lemma_shift_reads_bit(word: u32, k: u32)
    requires
        k <= 16,
    ensures
        ((word >> k) & 1) as int == word_bit(word as int, k as int),
        ((word >> k) & 1) == 0 || ((word >> k) & 1) == 1,
{
    assert(((word >> k) & 1) == (word / (1u32 << k)) % 2 && (1u32 << k) > 0 && (k == 0 ==> (1u32
        << k) == 1) && (k == 1 ==> (1u32 << k) == 2) && (k == 2 ==> (1u32 << k) == 4) && (k == 3
        ==> (1u32 << k) == 8) && (k == 4 ==> (1u32 << k) == 16) && (k == 5 ==> (1u32 << k) == 32)
        && (k == 6 ==> (1u32 << k) == 64) && (k == 7 ==> (1u32 << k) == 128) && (k == 8 ==> (1u32
        << k) == 256) && (k == 9 ==> (1u32 << k) == 512) && (k == 10 ==> (1u32 << k) == 1024) && (k
        == 11 ==> (1u32 << k) == 2048) && (k == 12 ==> (1u32 << k) == 4096) && (k == 13 ==> (1u32
        << k) == 8192) && (k == 14 ==> (1u32 << k) == 16384) && (k == 15 ==> (1u32 << k) == 32768)
        && (k == 16 ==> (1u32 << k) == 65536)) by (bit_vector)
        requires
            k <= 16,
    ;
}

/// The low four bits are the remainder by 16.
pub proof fn lemma_low_nibble(word: u32)
    ensures
        (word & 0x0f) as int == word_leap(word as int),
        (word & 0x0f) <= 15,
{
    assert(word & 0x0f == word % 16) by (bit_vector);
}

/// Number of the leap month that `word` encodes, 0 when there is none.
pub fn leap_of_word(word: u32) -> (leap: u8)
    ensures
        leap as int == word_leap(word as int),
{
    proof {
        lemma_low_nibble(word);
    }
    (word & 0x0f) as u8
}

/// How `word_bitmap` puts a bitmap together from a word: for a year with a
/// leap month, the months up to it, the leap month, and the months after
/// it, the last ones moved down by one bit.
pub open spec fn assembled(word: u32, leap: u32, bits: u32) -> bool {
    if leap > 0 {
        let upper: u32 = (13 - leap) as u32;
        let lower: u32 = (12 - leap) as u32;
        let keep_upper: u32 = ((1u32 << upper) - 1) as u32;
        let keep_lower: u32 = ((1u32 << lower) - 1) as u32;
        bits == ((word >> 3) & !keep_upper & 0x1fff) | (((word >> 16) & 1) << lower) | ((word >> 4)
            & keep_lower)
    } else {
        bits == (word >> 3) & 0x1ffe
    }
}

/// The bits of `word` that tell the month lengths, moved into calendar
/// order: bit `12 - slot` of the result is set when the month in slot
/// `slot` is long.
pub fn word_bitmap(word: u32) -> (bitmap: u16)
    requires
        word_ok(word as int),
    ensures
        bitmap < 0x2000,
        forall|slot: int|
            0 <= slot <= 12 ==> #[trigger] bitmap_long(bitmap as int, slot) == slot_long(
                word as int,
                slot,
            ),
{
    let leap: u32 = word & 0x0f;
    proof {
        lemma_low_nibble(word);
    }
    let bits: u32 = if leap > 0 {
        let upper: u32 = 13 - leap;
        let lower: u32 = 12 - leap;
        assert((1u32 << upper) >= 1 && (1u32 << lower) >= 1) by (bit_vector)
            requires
                upper <= 12,
                lower <= 11,
        ;
        let keep_upper: u32 = (1u32 << upper) - 1;
        let keep_lower: u32 = (1u32 << lower) - 1;
        ((word >> 3) & !keep_upper & 0x1fff) | (((word >> 16) & 1) << lower) | ((word >> 4)
            & keep_lower)
    } else {
        (word >> 3) & 0x1ffe
    };
    assert(assembled(word, leap, bits));
    assert(bits < 0x2000) by (bit_vector)
        requires
            leap <= 12,
            assembled(word, leap, bits),
    ;
    assert forall|slot: int| 0 <= slot <= 12 implies #[trigger] bitmap_long(bits as int, slot)
        == slot_long(word as int, slot) by {
        let s: u32 = slot as u32;
        let at: u32 = (12 - s) as u32;
        let month_at: u32 = (15 - s) as u32;
        let later_at: u32 = (16 - s) as u32;
        assert(((bits >> at) & 1) == if leap == 0 {
            if s < 12 {
                (word >> month_at) & 1
            } else {
                0
            }
        } else if s < leap {
            (word >> month_at) & 1
        } else if s == leap {
            (word >> 16) & 1
        } else {
            (word >> later_at) & 1
        }) by (bit_vector)
            requires
                s <= 12,
                at == 12 - s,
                s < 12 ==> month_at == 15 - s,
                s > 0 ==> later_at == 16 - s,
                leap == word & 0x0f,
                leap <= 12,
                assembled(word, leap, bits),
        ;
        lemma_shift_reads_bit(bits, at);
        if s < 12 {
            lemma_shift_reads_bit(word, month_at);
        }
        if s >= 1 {
            lemma_shift_reads_bit(word, later_at);
        }
        lemma_shift_reads_bit(word, 16);
    }
    bits as u16
}

/// The month bitmap of `year`, or nothing outside the tables.
pub fn short_or_long(year: i32) -> (bitmap: Option<u16>)
    ensures
        bitmap is Some <==> in_range(year as int),
        bitmap matches Some(bits) ==> bits < 0x2000,
        bitmap matches Some(bits) ==> forall|slot: int|
            0 <= slot <= 12 ==> #[trigger] bitmap_long(bits as int, slot) == slot_long(
                year_word(year as int),
                slot,
            ),
{
    match data(year) {
        Some(word) => {
            proof {
                lemma_year_fits(year as int);
            }
            Some(word_bitmap(word))
        },
        None => None,
    }
}

/// One year of the calendar, decoded: its leap month and the length of the
/// month in each slot.
#[derive(Clone, Copy, Debug)]
pub struct YearRecord {
    leap_month: u8,
    long_months: u16,
}

impl YearRecord {
    /// Number of the leap month, 0 when the year has none.
    pub closed spec fn spec_leap_month(&self) -> int {
        self.leap_month as int
    }

    /// Whether the month in slot `slot` has 30 days.
    pub closed spec fn spec_slot_long(&self, slot: int) -> bool {
        bitmap_long(self.long_months as int, slot)
    }

    /// Length in days of the month in slot `slot`.
    pub open spec fn spec_slot_days(&self, slot: int) -> int {
        if self.spec_slot_long(slot) {
            30
        } else {
            29
        }
    }

    /// Number of months of the year.
    pub open spec fn spec_slot_count(&self) -> int {
        if self.spec_leap_month() == 0 {
            12
        } else {
            13
        }
    }

    /// The record says of each slot what `word` encodes.
    pub open spec fn models(&self, word: int) -> bool {
        &&& self.spec_leap_month() == word_leap(word)
        &&& forall|slot: int|
            0 <= slot <= 12 ==> #[trigger] self.spec_slot_long(slot) == slot_long(word, slot)
    }

    /// Decodes the packed word of `year`; nothing for a year outside the
    /// tables.
    pub fn decode(year: i32) -> (record: Option<YearRecord>)
        ensures
            record is Some <==> in_range(year as int),
            record matches Some(r) ==> r.models(year_word(year as int)),
    {
        match data(year) {
            Some(word) => {
                proof {
                    lemma_year_fits(year as int);
                }
                Some(YearRecord { leap_month: leap_of_word(word), long_months: word_bitmap(word) })
            },
            None => None,
        }
    }

    /// Number of the leap month, 0 when the year has none.
    pub fn leap_month(&self) -> (leap: u8)
        ensures
            leap as int == self.spec_leap_month(),
    {
        self.leap_month
    }

    /// Number of months of the year: 13 with a leap month, else 12.
    pub fn slot_count(&self) -> (count: u8)
        ensures
            count as int == self.spec_slot_count(),
    {
        if self.leap_month == 0 {
            12
        } else {
            13
        }
    }

    /// Length in days of the month in slot `slot`.
    pub fn slot_days(&self, slot: u8) -> (days: u16)
        requires
            slot <= 12,
        ensures
            days as int == self.spec_slot_days(slot as int),
    {
        let bits: u32 = self.long_months as u32;
        let at: u32 = (12 - slot) as u32;
        proof {
            lemma_shift_reads_bit(bits, at);
        }
        if (bits >> at) & 1 == 1 {
            30
        } else {
            29
        }
    }
}

} // verus!
