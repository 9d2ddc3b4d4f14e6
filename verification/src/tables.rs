//! Reading the tables of packed words and new-year days, and what holds of
//! every row of them: each packed word is well formed, each new-year day
//! lies early in the year, and each Chinese year ends the day before the
//! next one begins.

use vstd::prelude::*;

use crate::data::{CHUNJIE, DATA};
use crate::spec_days_of_year;
use crate::year_data::{
    days_before, in_range, slot_count, slot_long, word_leap, word_ok, word_year_days,
};

verus! {

/// The packed word of `year`.
pub closed spec fn year_word(year: int) -> int
    recommends
        in_range(year),
{
    DATA@[year - 1900] as int
}

/// Day of the Gregorian year `year`, counted from 0, on which Chinese year
/// `year` begins.
pub closed spec fn new_year_day(year: int) -> int
    recommends
        in_range(year),
{
    CHUNJIE@[year - 1900] as int
}

/// The packed word of `year`, or nothing outside the tables.
pub fn data(year: i32) -> (word: Option<u32>)
    ensures
        word is Some <==> in_range(year as int),
        word matches Some(w) ==> w as int == year_word(year as int),
{
    if 1900 <= year && year <= 2100 {
        Some(DATA[(year - 1900) as usize])
    } else {
        None
    }
}

/// Day of the Gregorian year `year`, counted from 0, on which Chinese year
/// `year` begins, or nothing outside the tables.
pub fn chunjie(year: i32) -> (day: Option<u8>)
    ensures
        day is Some <==> in_range(year as int),
        day matches Some(d) ==> d as int == new_year_day(year as int),
{
    if 1900 <= year && year <= 2100 {
        Some(CHUNJIE[(year - 1900) as usize])
    } else {
        None
    }
}

/// What the tables hold for `year`.
pub proof fn law_year_row(year: int)
    requires
        in_range(year),
    ensures
        year_word(year) == DATA@[year - 1900] as int,
        new_year_day(year) == CHUNJIE@[year - 1900] as int,
{
}

/// Length in days of Chinese year `year`.
pub open spec fn year_days(year: int) -> int
    recommends
        in_range(year),
{
    word_year_days(year_word(year))
}

/// The row of `year` is well formed, its leap month is none of the twelfth,
/// and Chinese year `year + 1` begins the day after Chinese year `year`
/// ends.
pub open spec fn year_fits(year: int) -> bool {
    &&& word_ok(year_word(year))
    &&& word_leap(year_word(year)) <= 11
    &&& 20 <= new_year_day(year) <= 50
    &&& year < 2100 ==> new_year_day(year + 1) + spec_days_of_year(year) == new_year_day(year)
        + year_days(year)
}

/// 1 when slot `slot` lies below `bound` and holds a long month, else 0.
pub open spec fn long_if_below(word: int, slot: int, bound: int) -> int {
    if slot < bound && slot_long(word, slot) {
        1
    } else {
        0
    }
}

/// Number of long months among the slots below `bound`, written out over
/// the thirteen slots a year can have.
pub open spec fn long_below(word: int, bound: int) -> int {
    long_if_below(word, 0, bound) + long_if_below(word, 1, bound) + long_if_below(word, 2, bound)
        + long_if_below(word, 3, bound) + long_if_below(word, 4, bound) + long_if_below(
        word,
        5,
        bound,
    ) + long_if_below(word, 6, bound) + long_if_below(word, 7, bound) + long_if_below(
        word,
        8,
        bound,
    ) + long_if_below(word, 9, bound) + long_if_below(word, 10, bound) + long_if_below(
        word,
        11,
        bound,
    ) + long_if_below(word, 12, bound)
}

/// The days before a slot: 29 for each earlier month, and one more for
/// each long one.
pub proof fn lemma_days_before_counts(word: int, slot: int)
    requires
        0 <= slot <= 13,
    ensures
        days_before(word, slot) == 29 * slot + long_below(word, slot),
    decreases slot,
{
    if slot > 0 {
        lemma_days_before_counts(word, slot - 1);
        assert(long_below(word, slot) == long_below(word, slot - 1) + long_if_below(
            word,
            slot - 1,
            slot,
        ));
    }
}

/// A well-formed word encodes a year of 353 to 385 days.
pub proof fn lemma_year_days_bounds(word: int)
    requires
        word_ok(word),
    ensures
        29 * slot_count(word) <= word_year_days(word) <= 30 * slot_count(word),
        348 <= word_year_days(word) <= 390,
{
    lemma_days_before_counts(word, slot_count(word));
}


proof fn lemma_rows_1900s(year: int)
    requires
        1900 <= year < 1910,
    ensures
        year_fits(year),
{
    if year == 1900 {
        lemma_days_before_counts(0x04bd8, 13);
        assert(year_fits(1900));
    } else if year == 1901 {
        lemma_days_before_counts(0x04ae0, 12);
        assert(year_fits(1901));
    } else if year == 1902 {
        lemma_days_before_counts(0x0a570, 12);
        assert(year_fits(1902));
    } else if year == 1903 {
        lemma_days_before_counts(0x054d5, 13);
        assert(year_fits(1903));
    } else if year == 1904 {
        lemma_days_before_counts(0x0d260, 12);
        assert(year_fits(1904));
    } else if year == 1905 {
        lemma_days_before_counts(0x0d950, 12);
        assert(year_fits(1905));
    } else if year == 1906 {
        lemma_days_before_counts(0x16554, 13);
        assert(year_fits(1906));
    } else if year == 1907 {
        lemma_days_before_counts(0x056a0, 12);
        assert(year_fits(1907));
    } else if year == 1908 {
        lemma_days_before_counts(0x09ad0, 12);
        assert(year_fits(1908));
    } else if year == 1909 {
        lemma_days_before_counts(0x055d2, 13);
        assert(year_fits(1909));
    }
}

proof fn lemma_rows_1910s(year: int)
    requires
        1910 <= year < 1920,
    ensures
        year_fits(year),
{
    if year == 1910 {
        lemma_days_before_counts(0x04ae0, 12);
        assert(year_fits(1910));
    } else if year == 1911 {
        lemma_days_before_counts(0x0a5b6, 13);
        assert(year_fits(1911));
    } else if year == 1912 {
        lemma_days_before_counts(0x0a4d0, 12);
        assert(year_fits(1912));
    } else if year == 1913 {
        lemma_days_before_counts(0x0d250, 12);
        assert(year_fits(1913));
    } else if year == 1914 {
        lemma_days_before_counts(0x1d255, 13);
        assert(year_fits(1914));
    } else if year == 1915 {
        lemma_days_before_counts(0x0b540, 12);
        assert(year_fits(1915));
    } else if year == 1916 {
        lemma_days_before_counts(0x0d6a0, 12);
        assert(year_fits(1916));
    } else if year == 1917 {
        lemma_days_before_counts(0x0ada2, 13);
        assert(year_fits(1917));
    } else if year == 1918 {
        lemma_days_before_counts(0x095b0, 12);
        assert(year_fits(1918));
    } else if year == 1919 {
        lemma_days_before_counts(0x14977, 13);
        assert(year_fits(1919));
    }
}

proof fn lemma_rows_1920s(year: int)
    requires
        1920 <= year < 1930,
    ensures
        year_fits(year),
{
    if year == 1920 {
        lemma_days_before_counts(0x04970, 12);
        assert(year_fits(1920));
    } else if year == 1921 {
        lemma_days_before_counts(0x0a4b0, 12);
        assert(year_fits(1921));
    } else if year == 1922 {
        lemma_days_before_counts(0x0b4b5, 13);
        assert(year_fits(1922));
    } else if year == 1923 {
        lemma_days_before_counts(0x06a50, 12);
        assert(year_fits(1923));
    } else if year == 1924 {
        lemma_days_before_counts(0x06d40, 12);
        assert(year_fits(1924));
    } else if year == 1925 {
        lemma_days_before_counts(0x1ab54, 13);
        assert(year_fits(1925));
    } else if year == 1926 {
        lemma_days_before_counts(0x02b60, 12);
        assert(year_fits(1926));
    } else if year == 1927 {
        lemma_days_before_counts(0x09570, 12);
        assert(year_fits(1927));
    } else if year == 1928 {
        lemma_days_before_counts(0x052f2, 13);
        assert(year_fits(1928));
    } else if year == 1929 {
        lemma_days_before_counts(0x04970, 12);
        assert(year_fits(1929));
    }
}

proof fn lemma_rows_1930s(year: int)
    requires
        1930 <= year < 1940,
    ensures
        year_fits(year),
{
    if year == 1930 {
        lemma_days_before_counts(0x06566, 13);
        assert(year_fits(1930));
    } else if year == 1931 {
        lemma_days_before_counts(0x0d4a0, 12);
        assert(year_fits(1931));
    } else if year == 1932 {
        lemma_days_before_counts(0x0ea50, 12);
        assert(year_fits(1932));
    } else if year == 1933 {
        lemma_days_before_counts(0x16a95, 13);
        assert(year_fits(1933));
    } else if year == 1934 {
        lemma_days_before_counts(0x05ad0, 12);
        assert(year_fits(1934));
    } else if year == 1935 {
        lemma_days_before_counts(0x02b60, 12);
        assert(year_fits(1935));
    } else if year == 1936 {
        lemma_days_before_counts(0x186e3, 13);
        assert(year_fits(1936));
    } else if year == 1937 {
        lemma_days_before_counts(0x092e0, 12);
        assert(year_fits(1937));
    } else if year == 1938 {
        lemma_days_before_counts(0x1c8d7, 13);
        assert(year_fits(1938));
    } else if year == 1939 {
        lemma_days_before_counts(0x0c950, 12);
        assert(year_fits(1939));
    }
}

proof fn lemma_rows_1940s(year: int)
    requires
        1940 <= year < 1950,
    ensures
        year_fits(year),
{
    if year == 1940 {
        lemma_days_before_counts(0x0d4a0, 12);
        assert(year_fits(1940));
    } else if year == 1941 {
        lemma_days_before_counts(0x1d8a6, 13);
        assert(year_fits(1941));
    } else if year == 1942 {
        lemma_days_before_counts(0x0b550, 12);
        assert(year_fits(1942));
    } else if year == 1943 {
        lemma_days_before_counts(0x056a0, 12);
        assert(year_fits(1943));
    } else if year == 1944 {
        lemma_days_before_counts(0x1a5b4, 13);
        assert(year_fits(1944));
    } else if year == 1945 {
        lemma_days_before_counts(0x025d0, 12);
        assert(year_fits(1945));
    } else if year == 1946 {
        lemma_days_before_counts(0x092d0, 12);
        assert(year_fits(1946));
    } else if year == 1947 {
        lemma_days_before_counts(0x0d2b2, 13);
        assert(year_fits(1947));
    } else if year == 1948 {
        lemma_days_before_counts(0x0a950, 12);
        assert(year_fits(1948));
    } else if year == 1949 {
        lemma_days_before_counts(0x0b557, 13);
        assert(year_fits(1949));
    }
}

proof fn lemma_rows_1950s(year: int)
    requires
        1950 <= year < 1960,
    ensures
        year_fits(year),
{
    if year == 1950 {
        lemma_days_before_counts(0x06ca0, 12);
        assert(year_fits(1950));
    } else if year == 1951 {
        lemma_days_before_counts(0x0b550, 12);
        assert(year_fits(1951));
    } else if year == 1952 {
        lemma_days_before_counts(0x15355, 13);
        assert(year_fits(1952));
    } else if year == 1953 {
        lemma_days_before_counts(0x04da0, 12);
        assert(year_fits(1953));
    } else if year == 1954 {
        lemma_days_before_counts(0x0a5b0, 12);
        assert(year_fits(1954));
    } else if year == 1955 {
        lemma_days_before_counts(0x14573, 13);
        assert(year_fits(1955));
    } else if year == 1956 {
        lemma_days_before_counts(0x052b0, 12);
        assert(year_fits(1956));
    } else if year == 1957 {
        lemma_days_before_counts(0x0a9a8, 13);
        assert(year_fits(1957));
    } else if year == 1958 {
        lemma_days_before_counts(0x0e950, 12);
        assert(year_fits(1958));
    } else if year == 1959 {
        lemma_days_before_counts(0x06aa0, 12);
        assert(year_fits(1959));
    }
}

proof fn lemma_rows_1960s(year: int)
    requires
        1960 <= year < 1970,
    ensures
        year_fits(year),
{
    if year == 1960 {
        lemma_days_before_counts(0x0aea6, 13);
        assert(year_fits(1960));
    } else if year == 1961 {
        lemma_days_before_counts(0x0ab50, 12);
        assert(year_fits(1961));
    } else if year == 1962 {
        lemma_days_before_counts(0x04b60, 12);
        assert(year_fits(1962));
    } else if year == 1963 {
        lemma_days_before_counts(0x0aae4, 13);
        assert(year_fits(1963));
    } else if year == 1964 {
        lemma_days_before_counts(0x0a570, 12);
        assert(year_fits(1964));
    } else if year == 1965 {
        lemma_days_before_counts(0x05260, 12);
        assert(year_fits(1965));
    } else if year == 1966 {
        lemma_days_before_counts(0x0f263, 13);
        assert(year_fits(1966));
    } else if year == 1967 {
        lemma_days_before_counts(0x0d950, 12);
        assert(year_fits(1967));
    } else if year == 1968 {
        lemma_days_before_counts(0x05b57, 13);
        assert(year_fits(1968));
    } else if year == 1969 {
        lemma_days_before_counts(0x056a0, 12);
        assert(year_fits(1969));
    }
}

proof fn lemma_rows_1970s(year: int)
    requires
        1970 <= year < 1980,
    ensures
        year_fits(year),
{
    if year == 1970 {
        lemma_days_before_counts(0x096d0, 12);
        assert(year_fits(1970));
    } else if year == 1971 {
        lemma_days_before_counts(0x04dd5, 13);
        assert(year_fits(1971));
    } else if year == 1972 {
        lemma_days_before_counts(0x04ad0, 12);
        assert(year_fits(1972));
    } else if year == 1973 {
        lemma_days_before_counts(0x0a4d0, 12);
        assert(year_fits(1973));
    } else if year == 1974 {
        lemma_days_before_counts(0x0d4d4, 13);
        assert(year_fits(1974));
    } else if year == 1975 {
        lemma_days_before_counts(0x0d250, 12);
        assert(year_fits(1975));
    } else if year == 1976 {
        lemma_days_before_counts(0x0d558, 13);
        assert(year_fits(1976));
    } else if year == 1977 {
        lemma_days_before_counts(0x0b540, 12);
        assert(year_fits(1977));
    } else if year == 1978 {
        lemma_days_before_counts(0x0b6a0, 12);
        assert(year_fits(1978));
    } else if year == 1979 {
        lemma_days_before_counts(0x195a6, 13);
        assert(year_fits(1979));
    }
}

proof fn lemma_rows_1980s(year: int)
    requires
        1980 <= year < 1990,
    ensures
        year_fits(year),
{
    if year == 1980 {
        lemma_days_before_counts(0x095b0, 12);
        assert(year_fits(1980));
    } else if year == 1981 {
        lemma_days_before_counts(0x049b0, 12);
        assert(year_fits(1981));
    } else if year == 1982 {
        lemma_days_before_counts(0x0a974, 13);
        assert(year_fits(1982));
    } else if year == 1983 {
        lemma_days_before_counts(0x0a4b0, 12);
        assert(year_fits(1983));
    } else if year == 1984 {
        lemma_days_before_counts(0x0b27a, 13);
        assert(year_fits(1984));
    } else if year == 1985 {
        lemma_days_before_counts(0x06a50, 12);
        assert(year_fits(1985));
    } else if year == 1986 {
        lemma_days_before_counts(0x06d40, 12);
        assert(year_fits(1986));
    } else if year == 1987 {
        lemma_days_before_counts(0x0af46, 13);
        assert(year_fits(1987));
    } else if year == 1988 {
        lemma_days_before_counts(0x0ab60, 12);
        assert(year_fits(1988));
    } else if year == 1989 {
        lemma_days_before_counts(0x09570, 12);
        assert(year_fits(1989));
    }
}

proof fn lemma_rows_1990s(year: int)
    requires
        1990 <= year < 2000,
    ensures
        year_fits(year),
{
    if year == 1990 {
        lemma_days_before_counts(0x04af5, 13);
        assert(year_fits(1990));
    } else if year == 1991 {
        lemma_days_before_counts(0x04970, 12);
        assert(year_fits(1991));
    } else if year == 1992 {
        lemma_days_before_counts(0x064b0, 12);
        assert(year_fits(1992));
    } else if year == 1993 {
        lemma_days_before_counts(0x074a3, 13);
        assert(year_fits(1993));
    } else if year == 1994 {
        lemma_days_before_counts(0x0ea50, 12);
        assert(year_fits(1994));
    } else if year == 1995 {
        lemma_days_before_counts(0x06b58, 13);
        assert(year_fits(1995));
    } else if year == 1996 {
        lemma_days_before_counts(0x05ac0, 12);
        assert(year_fits(1996));
    } else if year == 1997 {
        lemma_days_before_counts(0x0ab60, 12);
        assert(year_fits(1997));
    } else if year == 1998 {
        lemma_days_before_counts(0x096d5, 13);
        assert(year_fits(1998));
    } else if year == 1999 {
        lemma_days_before_counts(0x092e0, 12);
        assert(year_fits(1999));
    }
}

proof fn lemma_rows_2000s(year: int)
    requires
        2000 <= year < 2010,
    ensures
        year_fits(year),
{
    if year == 2000 {
        lemma_days_before_counts(0x0c960, 12);
        assert(year_fits(2000));
    } else if year == 2001 {
        lemma_days_before_counts(0x0d954, 13);
        assert(year_fits(2001));
    } else if year == 2002 {
        lemma_days_before_counts(0x0d4a0, 12);
        assert(year_fits(2002));
    } else if year == 2003 {
        lemma_days_before_counts(0x0da50, 12);
        assert(year_fits(2003));
    } else if year == 2004 {
        lemma_days_before_counts(0x07552, 13);
        assert(year_fits(2004));
    } else if year == 2005 {
        lemma_days_before_counts(0x056a0, 12);
        assert(year_fits(2005));
    } else if year == 2006 {
        lemma_days_before_counts(0x0abb7, 13);
        assert(year_fits(2006));
    } else if year == 2007 {
        lemma_days_before_counts(0x025d0, 12);
        assert(year_fits(2007));
    } else if year == 2008 {
        lemma_days_before_counts(0x092d0, 12);
        assert(year_fits(2008));
    } else if year == 2009 {
        lemma_days_before_counts(0x0cab5, 13);
        assert(year_fits(2009));
    }
}

proof fn lemma_rows_2010s(year: int)
    requires
        2010 <= year < 2020,
    ensures
        year_fits(year),
{
    if year == 2010 {
        lemma_days_before_counts(0x0a950, 12);
        assert(year_fits(2010));
    } else if year == 2011 {
        lemma_days_before_counts(0x0b4a0, 12);
        assert(year_fits(2011));
    } else if year == 2012 {
        lemma_days_before_counts(0x0baa4, 13);
        assert(year_fits(2012));
    } else if year == 2013 {
        lemma_days_before_counts(0x0ad50, 12);
        assert(year_fits(2013));
    } else if year == 2014 {
        lemma_days_before_counts(0x055d9, 13);
        assert(year_fits(2014));
    } else if year == 2015 {
        lemma_days_before_counts(0x04ba0, 12);
        assert(year_fits(2015));
    } else if year == 2016 {
        lemma_days_before_counts(0x0a5b0, 12);
        assert(year_fits(2016));
    } else if year == 2017 {
        lemma_days_before_counts(0x15176, 13);
        assert(year_fits(2017));
    } else if year == 2018 {
        lemma_days_before_counts(0x052b0, 12);
        assert(year_fits(2018));
    } else if year == 2019 {
        lemma_days_before_counts(0x0a930, 12);
        assert(year_fits(2019));
    }
}

proof fn lemma_rows_2020s(year: int)
    requires
        2020 <= year < 2030,
    ensures
        year_fits(year),
{
    if year == 2020 {
        lemma_days_before_counts(0x07954, 13);
        assert(year_fits(2020));
    } else if year == 2021 {
        lemma_days_before_counts(0x06aa0, 12);
        assert(year_fits(2021));
    } else if year == 2022 {
        lemma_days_before_counts(0x0ad50, 12);
        assert(year_fits(2022));
    } else if year == 2023 {
        lemma_days_before_counts(0x05b52, 13);
        assert(year_fits(2023));
    } else if year == 2024 {
        lemma_days_before_counts(0x04b60, 12);
        assert(year_fits(2024));
    } else if year == 2025 {
        lemma_days_before_counts(0x0a6e6, 13);
        assert(year_fits(2025));
    } else if year == 2026 {
        lemma_days_before_counts(0x0a4e0, 12);
        assert(year_fits(2026));
    } else if year == 2027 {
        lemma_days_before_counts(0x0d260, 12);
        assert(year_fits(2027));
    } else if year == 2028 {
        lemma_days_before_counts(0x0ea65, 13);
        assert(year_fits(2028));
    } else if year == 2029 {
        lemma_days_before_counts(0x0d530, 12);
        assert(year_fits(2029));
    }
}

proof fn lemma_rows_2030s(year: int)
    requires
        2030 <= year < 2040,
    ensures
        year_fits(year),
{
    if year == 2030 {
        lemma_days_before_counts(0x05aa0, 12);
        assert(year_fits(2030));
    } else if year == 2031 {
        lemma_days_before_counts(0x076a3, 13);
        assert(year_fits(2031));
    } else if year == 2032 {
        lemma_days_before_counts(0x096d0, 12);
        assert(year_fits(2032));
    } else if year == 2033 {
        lemma_days_before_counts(0x04afb, 13);
        assert(year_fits(2033));
    } else if year == 2034 {
        lemma_days_before_counts(0x04ad0, 12);
        assert(year_fits(2034));
    } else if year == 2035 {
        lemma_days_before_counts(0x0a4d0, 12);
        assert(year_fits(2035));
    } else if year == 2036 {
        lemma_days_before_counts(0x1d0b6, 13);
        assert(year_fits(2036));
    } else if year == 2037 {
        lemma_days_before_counts(0x0d250, 12);
        assert(year_fits(2037));
    } else if year == 2038 {
        lemma_days_before_counts(0x0d520, 12);
        assert(year_fits(2038));
    } else if year == 2039 {
        lemma_days_before_counts(0x0dd45, 13);
        assert(year_fits(2039));
    }
}

proof fn lemma_rows_2040s(year: int)
    requires
        2040 <= year < 2050,
    ensures
        year_fits(year),
{
    if year == 2040 {
        lemma_days_before_counts(0x0b5a0, 12);
        assert(year_fits(2040));
    } else if year == 2041 {
        lemma_days_before_counts(0x056d0, 12);
        assert(year_fits(2041));
    } else if year == 2042 {
        lemma_days_before_counts(0x055b2, 13);
        assert(year_fits(2042));
    } else if year == 2043 {
        lemma_days_before_counts(0x049b0, 12);
        assert(year_fits(2043));
    } else if year == 2044 {
        lemma_days_before_counts(0x0a577, 13);
        assert(year_fits(2044));
    } else if year == 2045 {
        lemma_days_before_counts(0x0a4b0, 12);
        assert(year_fits(2045));
    } else if year == 2046 {
        lemma_days_before_counts(0x0aa50, 12);
        assert(year_fits(2046));
    } else if year == 2047 {
        lemma_days_before_counts(0x1b255, 13);
        assert(year_fits(2047));
    } else if year == 2048 {
        lemma_days_before_counts(0x06d20, 12);
        assert(year_fits(2048));
    } else if year == 2049 {
        lemma_days_before_counts(0x0ada0, 12);
        assert(year_fits(2049));
    }
}

proof fn lemma_rows_2050s(year: int)
    requires
        2050 <= year < 2060,
    ensures
        year_fits(year),
{
    if year == 2050 {
        lemma_days_before_counts(0x14b63, 13);
        assert(year_fits(2050));
    } else if year == 2051 {
        lemma_days_before_counts(0x09370, 12);
        assert(year_fits(2051));
    } else if year == 2052 {
        lemma_days_before_counts(0x049f8, 13);
        assert(year_fits(2052));
    } else if year == 2053 {
        lemma_days_before_counts(0x04970, 12);
        assert(year_fits(2053));
    } else if year == 2054 {
        lemma_days_before_counts(0x064b0, 12);
        assert(year_fits(2054));
    } else if year == 2055 {
        lemma_days_before_counts(0x168a6, 13);
        assert(year_fits(2055));
    } else if year == 2056 {
        lemma_days_before_counts(0x0ea50, 12);
        assert(year_fits(2056));
    } else if year == 2057 {
        lemma_days_before_counts(0x06b20, 12);
        assert(year_fits(2057));
    } else if year == 2058 {
        lemma_days_before_counts(0x1a6c4, 13);
        assert(year_fits(2058));
    } else if year == 2059 {
        lemma_days_before_counts(0x0aae0, 12);
        assert(year_fits(2059));
    }
}

proof fn lemma_rows_2060s(year: int)
    requires
        2060 <= year < 2070,
    ensures
        year_fits(year),
{
    if year == 2060 {
        lemma_days_before_counts(0x092e0, 12);
        assert(year_fits(2060));
    } else if year == 2061 {
        lemma_days_before_counts(0x0d2e3, 13);
        assert(year_fits(2061));
    } else if year == 2062 {
        lemma_days_before_counts(0x0c960, 12);
        assert(year_fits(2062));
    } else if year == 2063 {
        lemma_days_before_counts(0x0d557, 13);
        assert(year_fits(2063));
    } else if year == 2064 {
        lemma_days_before_counts(0x0d4a0, 12);
        assert(year_fits(2064));
    } else if year == 2065 {
        lemma_days_before_counts(0x0da50, 12);
        assert(year_fits(2065));
    } else if year == 2066 {
        lemma_days_before_counts(0x05d55, 13);
        assert(year_fits(2066));
    } else if year == 2067 {
        lemma_days_before_counts(0x056a0, 12);
        assert(year_fits(2067));
    } else if year == 2068 {
        lemma_days_before_counts(0x0a6d0, 12);
        assert(year_fits(2068));
    } else if year == 2069 {
        lemma_days_before_counts(0x055d4, 13);
        assert(year_fits(2069));
    }
}

proof fn lemma_rows_2070s(year: int)
    requires
        2070 <= year < 2080,
    ensures
        year_fits(year),
{
    if year == 2070 {
        lemma_days_before_counts(0x052d0, 12);
        assert(year_fits(2070));
    } else if year == 2071 {
        lemma_days_before_counts(0x0a9b8, 13);
        assert(year_fits(2071));
    } else if year == 2072 {
        lemma_days_before_counts(0x0a950, 12);
        assert(year_fits(2072));
    } else if year == 2073 {
        lemma_days_before_counts(0x0b4a0, 12);
        assert(year_fits(2073));
    } else if year == 2074 {
        lemma_days_before_counts(0x0b6a6, 13);
        assert(year_fits(2074));
    } else if year == 2075 {
        lemma_days_before_counts(0x0ad50, 12);
        assert(year_fits(2075));
    } else if year == 2076 {
        lemma_days_before_counts(0x055a0, 12);
        assert(year_fits(2076));
    } else if year == 2077 {
        lemma_days_before_counts(0x0aba4, 13);
        assert(year_fits(2077));
    } else if year == 2078 {
        lemma_days_before_counts(0x0a5b0, 12);
        assert(year_fits(2078));
    } else if year == 2079 {
        lemma_days_before_counts(0x052b0, 12);
        assert(year_fits(2079));
    }
}

proof fn lemma_rows_2080s(year: int)
    requires
        2080 <= year < 2090,
    ensures
        year_fits(year),
{
    if year == 2080 {
        lemma_days_before_counts(0x0b273, 13);
        assert(year_fits(2080));
    } else if year == 2081 {
        lemma_days_before_counts(0x06930, 12);
        assert(year_fits(2081));
    } else if year == 2082 {
        lemma_days_before_counts(0x07337, 13);
        assert(year_fits(2082));
    } else if year == 2083 {
        lemma_days_before_counts(0x06aa0, 12);
        assert(year_fits(2083));
    } else if year == 2084 {
        lemma_days_before_counts(0x0ad50, 12);
        assert(year_fits(2084));
    } else if year == 2085 {
        lemma_days_before_counts(0x14b55, 13);
        assert(year_fits(2085));
    } else if year == 2086 {
        lemma_days_before_counts(0x04b60, 12);
        assert(year_fits(2086));
    } else if year == 2087 {
        lemma_days_before_counts(0x0a570, 12);
        assert(year_fits(2087));
    } else if year == 2088 {
        lemma_days_before_counts(0x054e4, 13);
        assert(year_fits(2088));
    } else if year == 2089 {
        lemma_days_before_counts(0x0d160, 12);
        assert(year_fits(2089));
    }
}

proof fn lemma_rows_2090s(year: int)
    requires
        2090 <= year < 2100,
    ensures
        year_fits(year),
{
    if year == 2090 {
        lemma_days_before_counts(0x0e968, 13);
        assert(year_fits(2090));
    } else if year == 2091 {
        lemma_days_before_counts(0x0d520, 12);
        assert(year_fits(2091));
    } else if year == 2092 {
        lemma_days_before_counts(0x0daa0, 12);
        assert(year_fits(2092));
    } else if year == 2093 {
        lemma_days_before_counts(0x16aa6, 13);
        assert(year_fits(2093));
    } else if year == 2094 {
        lemma_days_before_counts(0x056d0, 12);
        assert(year_fits(2094));
    } else if year == 2095 {
        lemma_days_before_counts(0x04ae0, 12);
        assert(year_fits(2095));
    } else if year == 2096 {
        lemma_days_before_counts(0x0a9d4, 13);
        assert(year_fits(2096));
    } else if year == 2097 {
        lemma_days_before_counts(0x0a2d0, 12);
        assert(year_fits(2097));
    } else if year == 2098 {
        lemma_days_before_counts(0x0d150, 12);
        assert(year_fits(2098));
    } else if year == 2099 {
        lemma_days_before_counts(0x0f252, 13);
        assert(year_fits(2099));
    }
}

proof fn lemma_rows_2100s(year: int)
    requires
        2100 <= year < 2101,
    ensures
        year_fits(year),
{
    lemma_days_before_counts(0x0d520, 12);
    assert(year_fits(2100));
}

/// Every row of the tables fits its neighbours.
pub proof fn lemma_year_fits(year: int)
    requires
        in_range(year),
    ensures
        year_fits(year),
{
    if year < 1910 {
        lemma_rows_1900s(year);
    } else if year < 1920 {
        lemma_rows_1910s(year);
    } else if year < 1930 {
        lemma_rows_1920s(year);
    } else if year < 1940 {
        lemma_rows_1930s(year);
    } else if year < 1950 {
        lemma_rows_1940s(year);
    } else if year < 1960 {
        lemma_rows_1950s(year);
    } else if year < 1970 {
        lemma_rows_1960s(year);
    } else if year < 1980 {
        lemma_rows_1970s(year);
    } else if year < 1990 {
        lemma_rows_1980s(year);
    } else if year < 2000 {
        lemma_rows_1990s(year);
    } else if year < 2010 {
        lemma_rows_2000s(year);
    } else if year < 2020 {
        lemma_rows_2010s(year);
    } else if year < 2030 {
        lemma_rows_2020s(year);
    } else if year < 2040 {
        lemma_rows_2030s(year);
    } else if year < 2050 {
        lemma_rows_2040s(year);
    } else if year < 2060 {
        lemma_rows_2050s(year);
    } else if year < 2070 {
        lemma_rows_2060s(year);
    } else if year < 2080 {
        lemma_rows_2070s(year);
    } else if year < 2090 {
        lemma_rows_2080s(year);
    } else if year < 2100 {
        lemma_rows_2090s(year);
    } else {
        lemma_rows_2100s(year);
    }
}

} // verus!
