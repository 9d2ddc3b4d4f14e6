//! Reading the table of solar-term days, and what holds of every row of
//! it.

use vstd::prelude::*;

use crate::data::SOLAR_TERMS;
use crate::year_data::in_range;

verus! {

/// Day of the month on which term `term` (0 to 23) of `year` falls. Term
/// `term` falls in month `term / 2 + 1`.
pub closed spec fn term_day(year: int, term: int) -> int
    recommends
        in_range(year),
        0 <= term < 24,
{
    SOLAR_TERMS@[year - 1900]@[term] as int
}

/// Day of the month on which term `term` of `year` falls; nothing for a
/// year outside the table or a term that is none of the twenty-four.
pub fn term_day_of(year: i32, term: u8) -> (day: Option<u8>)
    ensures
        day is Some <==> in_range(year as int) && term < 24,
        day matches Some(d) ==> d as int == term_day(year as int, term as int),
{
    if 1900 <= year && year <= 2100 && term < 24 {
        Some(SOLAR_TERMS[(year - 1900) as usize][term as usize])
    } else {
        None
    }
}

/// What the table holds for term `term` of `year`.
pub proof fn law_term_row(year: int, term: int)
    requires
        in_range(year),
        0 <= term < 24,
    ensures
        term_day(year, term) == SOLAR_TERMS@[year - 1900]@[term] as int,
{
}

/// The terms of a year fall in order: in each month the first on a day
/// from the 3rd to the 9th, the second on a day from the 18th to the 25th.
pub open spec fn terms_in_order(year: int) -> bool {
    forall|month: int|
        1 <= month <= 12 ==> 3 <= #[trigger] term_day(year, 2 * (month - 1)) <= 9 && 18
            <= term_day(year, 2 * (month - 1) + 1) <= 25
}


proof fn lemma_terms_1900s(year: int)
    requires
        1900 <= year < 1910,
    ensures
        terms_in_order(year),
{
    if year == 1900 {
        assert(terms_in_order(1900));
    } else if year == 1901 {
        assert(terms_in_order(1901));
    } else if year == 1902 {
        assert(terms_in_order(1902));
    } else if year == 1903 {
        assert(terms_in_order(1903));
    } else if year == 1904 {
        assert(terms_in_order(1904));
    } else if year == 1905 {
        assert(terms_in_order(1905));
    } else if year == 1906 {
        assert(terms_in_order(1906));
    } else if year == 1907 {
        assert(terms_in_order(1907));
    } else if year == 1908 {
        assert(terms_in_order(1908));
    } else if year == 1909 {
        assert(terms_in_order(1909));
    }
}

proof fn lemma_terms_1910s(year: int)
    requires
        1910 <= year < 1920,
    ensures
        terms_in_order(year),
{
    if year == 1910 {
        assert(terms_in_order(1910));
    } else if year == 1911 {
        assert(terms_in_order(1911));
    } else if year == 1912 {
        assert(terms_in_order(1912));
    } else if year == 1913 {
        assert(terms_in_order(1913));
    } else if year == 1914 {
        assert(terms_in_order(1914));
    } else if year == 1915 {
        assert(terms_in_order(1915));
    } else if year == 1916 {
        assert(terms_in_order(1916));
    } else if year == 1917 {
        assert(terms_in_order(1917));
    } else if year == 1918 {
        assert(terms_in_order(1918));
    } else if year == 1919 {
        assert(terms_in_order(1919));
    }
}

proof fn lemma_terms_1920s(year: int)
    requires
        1920 <= year < 1930,
    ensures
        terms_in_order(year),
{
    if year == 1920 {
        assert(terms_in_order(1920));
    } else if year == 1921 {
        assert(terms_in_order(1921));
    } else if year == 1922 {
        assert(terms_in_order(1922));
    } else if year == 1923 {
        assert(terms_in_order(1923));
    } else if year == 1924 {
        assert(terms_in_order(1924));
    } else if year == 1925 {
        assert(terms_in_order(1925));
    } else if year == 1926 {
        assert(terms_in_order(1926));
    } else if year == 1927 {
        assert(terms_in_order(1927));
    } else if year == 1928 {
        assert(terms_in_order(1928));
    } else if year == 1929 {
        assert(terms_in_order(1929));
    }
}

proof fn lemma_terms_1930s(year: int)
    requires
        1930 <= year < 1940,
    ensures
        terms_in_order(year),
{
    if year == 1930 {
        assert(terms_in_order(1930));
    } else if year == 1931 {
        assert(terms_in_order(1931));
    } else if year == 1932 {
        assert(terms_in_order(1932));
    } else if year == 1933 {
        assert(terms_in_order(1933));
    } else if year == 1934 {
        assert(terms_in_order(1934));
    } else if year == 1935 {
        assert(terms_in_order(1935));
    } else if year == 1936 {
        assert(terms_in_order(1936));
    } else if year == 1937 {
        assert(terms_in_order(1937));
    } else if year == 1938 {
        assert(terms_in_order(1938));
    } else if year == 1939 {
        assert(terms_in_order(1939));
    }
}

proof fn lemma_terms_1940s(year: int)
    requires
        1940 <= year < 1950,
    ensures
        terms_in_order(year),
{
    if year == 1940 {
        assert(terms_in_order(1940));
    } else if year == 1941 {
        assert(terms_in_order(1941));
    } else if year == 1942 {
        assert(terms_in_order(1942));
    } else if year == 1943 {
        assert(terms_in_order(1943));
    } else if year == 1944 {
        assert(terms_in_order(1944));
    } else if year == 1945 {
        assert(terms_in_order(1945));
    } else if year == 1946 {
        assert(terms_in_order(1946));
    } else if year == 1947 {
        assert(terms_in_order(1947));
    } else if year == 1948 {
        assert(terms_in_order(1948));
    } else if year == 1949 {
        assert(terms_in_order(1949));
    }
}

proof fn lemma_terms_1950s(year: int)
    requires
        1950 <= year < 1960,
    ensures
        terms_in_order(year),
{
    if year == 1950 {
        assert(terms_in_order(1950));
    } else if year == 1951 {
        assert(terms_in_order(1951));
    } else if year == 1952 {
        assert(terms_in_order(1952));
    } else if year == 1953 {
        assert(terms_in_order(1953));
    } else if year == 1954 {
        assert(terms_in_order(1954));
    } else if year == 1955 {
        assert(terms_in_order(1955));
    } else if year == 1956 {
        assert(terms_in_order(1956));
    } else if year == 1957 {
        assert(terms_in_order(1957));
    } else if year == 1958 {
        assert(terms_in_order(1958));
    } else if year == 1959 {
        assert(terms_in_order(1959));
    }
}

proof fn lemma_terms_1960s(year: int)
    requires
        1960 <= year < 1970,
    ensures
        terms_in_order(year),
{
    if year == 1960 {
        assert(terms_in_order(1960));
    } else if year == 1961 {
        assert(terms_in_order(1961));
    } else if year == 1962 {
        assert(terms_in_order(1962));
    } else if year == 1963 {
        assert(terms_in_order(1963));
    } else if year == 1964 {
        assert(terms_in_order(1964));
    } else if year == 1965 {
        assert(terms_in_order(1965));
    } else if year == 1966 {
        assert(terms_in_order(1966));
    } else if year == 1967 {
        assert(terms_in_order(1967));
    } else if year == 1968 {
        assert(terms_in_order(1968));
    } else if year == 1969 {
        assert(terms_in_order(1969));
    }
}

proof fn lemma_terms_1970s(year: int)
    requires
        1970 <= year < 1980,
    ensures
        terms_in_order(year),
{
    if year == 1970 {
        assert(terms_in_order(1970));
    } else if year == 1971 {
        assert(terms_in_order(1971));
    } else if year == 1972 {
        assert(terms_in_order(1972));
    } else if year == 1973 {
        assert(terms_in_order(1973));
    } else if year == 1974 {
        assert(terms_in_order(1974));
    } else if year == 1975 {
        assert(terms_in_order(1975));
    } else if year == 1976 {
        assert(terms_in_order(1976));
    } else if year == 1977 {
        assert(terms_in_order(1977));
    } else if year == 1978 {
        assert(terms_in_order(1978));
    } else if year == 1979 {
        assert(terms_in_order(1979));
    }
}

proof fn lemma_terms_1980s(year: int)
    requires
        1980 <= year < 1990,
    ensures
        terms_in_order(year),
{
    if year == 1980 {
        assert(terms_in_order(1980));
    } else if year == 1981 {
        assert(terms_in_order(1981));
    } else if year == 1982 {
        assert(terms_in_order(1982));
    } else if year == 1983 {
        assert(terms_in_order(1983));
    } else if year == 1984 {
        assert(terms_in_order(1984));
    } else if year == 1985 {
        assert(terms_in_order(1985));
    } else if year == 1986 {
        assert(terms_in_order(1986));
    } else if year == 1987 {
        assert(terms_in_order(1987));
    } else if year == 1988 {
        assert(terms_in_order(1988));
    } else if year == 1989 {
        assert(terms_in_order(1989));
    }
}

proof fn lemma_terms_1990s(year: int)
    requires
        1990 <= year < 2000,
    ensures
        terms_in_order(year),
{
    if year == 1990 {
        assert(terms_in_order(1990));
    } else if year == 1991 {
        assert(terms_in_order(1991));
    } else if year == 1992 {
        assert(terms_in_order(1992));
    } else if year == 1993 {
        assert(terms_in_order(1993));
    } else if year == 1994 {
        assert(terms_in_order(1994));
    } else if year == 1995 {
        assert(terms_in_order(1995));
    } else if year == 1996 {
        assert(terms_in_order(1996));
    } else if year == 1997 {
        assert(terms_in_order(1997));
    } else if year == 1998 {
        assert(terms_in_order(1998));
    } else if year == 1999 {
        assert(terms_in_order(1999));
    }
}

proof fn lemma_terms_2000s(year: int)
    requires
        2000 <= year < 2010,
    ensures
        terms_in_order(year),
{
    if year == 2000 {
        assert(terms_in_order(2000));
    } else if year == 2001 {
        assert(terms_in_order(2001));
    } else if year == 2002 {
        assert(terms_in_order(2002));
    } else if year == 2003 {
        assert(terms_in_order(2003));
    } else if year == 2004 {
        assert(terms_in_order(2004));
    } else if year == 2005 {
        assert(terms_in_order(2005));
    } else if year == 2006 {
        assert(terms_in_order(2006));
    } else if year == 2007 {
        assert(terms_in_order(2007));
    } else if year == 2008 {
        assert(terms_in_order(2008));
    } else if year == 2009 {
        assert(terms_in_order(2009));
    }
}

proof fn lemma_terms_2010s(year: int)
    requires
        2010 <= year < 2020,
    ensures
        terms_in_order(year),
{
    if year == 2010 {
        assert(terms_in_order(2010));
    } else if year == 2011 {
        assert(terms_in_order(2011));
    } else if year == 2012 {
        assert(terms_in_order(2012));
    } else if year == 2013 {
        assert(terms_in_order(2013));
    } else if year == 2014 {
        assert(terms_in_order(2014));
    } else if year == 2015 {
        assert(terms_in_order(2015));
    } else if year == 2016 {
        assert(terms_in_order(2016));
    } else if year == 2017 {
        assert(terms_in_order(2017));
    } else if year == 2018 {
        assert(terms_in_order(2018));
    } else if year == 2019 {
        assert(terms_in_order(2019));
    }
}

proof fn lemma_terms_2020s(year: int)
    requires
        2020 <= year < 2030,
    ensures
        terms_in_order(year),
{
    if year == 2020 {
        assert(terms_in_order(2020));
    } else if year == 2021 {
        assert(terms_in_order(2021));
    } else if year == 2022 {
        assert(terms_in_order(2022));
    } else if year == 2023 {
        assert(terms_in_order(2023));
    } else if year == 2024 {
        assert(terms_in_order(2024));
    } else if year == 2025 {
        assert(terms_in_order(2025));
    } else if year == 2026 {
        assert(terms_in_order(2026));
    } else if year == 2027 {
        assert(terms_in_order(2027));
    } else if year == 2028 {
        assert(terms_in_order(2028));
    } else if year == 2029 {
        assert(terms_in_order(2029));
    }
}

proof fn lemma_terms_2030s(year: int)
    requires
        2030 <= year < 2040,
    ensures
        terms_in_order(year),
{
    if year == 2030 {
        assert(terms_in_order(2030));
    } else if year == 2031 {
        assert(terms_in_order(2031));
    } else if year == 2032 {
        assert(terms_in_order(2032));
    } else if year == 2033 {
        assert(terms_in_order(2033));
    } else if year == 2034 {
        assert(terms_in_order(2034));
    } else if year == 2035 {
        assert(terms_in_order(2035));
    } else if year == 2036 {
        assert(terms_in_order(2036));
    } else if year == 2037 {
        assert(terms_in_order(2037));
    } else if year == 2038 {
        assert(terms_in_order(2038));
    } else if year == 2039 {
        assert(terms_in_order(2039));
    }
}

proof fn lemma_terms_2040s(year: int)
    requires
        2040 <= year < 2050,
    ensures
        terms_in_order(year),
{
    if year == 2040 {
        assert(terms_in_order(2040));
    } else if year == 2041 {
        assert(terms_in_order(2041));
    } else if year == 2042 {
        assert(terms_in_order(2042));
    } else if year == 2043 {
        assert(terms_in_order(2043));
    } else if year == 2044 {
        assert(terms_in_order(2044));
    } else if year == 2045 {
        assert(terms_in_order(2045));
    } else if year == 2046 {
        assert(terms_in_order(2046));
    } else if year == 2047 {
        assert(terms_in_order(2047));
    } else if year == 2048 {
        assert(terms_in_order(2048));
    } else if year == 2049 {
        assert(terms_in_order(2049));
    }
}

proof fn lemma_terms_2050s(year: int)
    requires
        2050 <= year < 2060,
    ensures
        terms_in_order(year),
{
    if year == 2050 {
        assert(terms_in_order(2050));
    } else if year == 2051 {
        assert(terms_in_order(2051));
    } else if year == 2052 {
        assert(terms_in_order(2052));
    } else if year == 2053 {
        assert(terms_in_order(2053));
    } else if year == 2054 {
        assert(terms_in_order(2054));
    } else if year == 2055 {
        assert(terms_in_order(2055));
    } else if year == 2056 {
        assert(terms_in_order(2056));
    } else if year == 2057 {
        assert(terms_in_order(2057));
    } else if year == 2058 {
        assert(terms_in_order(2058));
    } else if year == 2059 {
        assert(terms_in_order(2059));
    }
}

proof fn lemma_terms_2060s(year: int)
    requires
        2060 <= year < 2070,
    ensures
        terms_in_order(year),
{
    if year == 2060 {
        assert(terms_in_order(2060));
    } else if year == 2061 {
        assert(terms_in_order(2061));
    } else if year == 2062 {
        assert(terms_in_order(2062));
    } else if year == 2063 {
        assert(terms_in_order(2063));
    } else if year == 2064 {
        assert(terms_in_order(2064));
    } else if year == 2065 {
        assert(terms_in_order(2065));
    } else if year == 2066 {
        assert(terms_in_order(2066));
    } else if year == 2067 {
        assert(terms_in_order(2067));
    } else if year == 2068 {
        assert(terms_in_order(2068));
    } else if year == 2069 {
        assert(terms_in_order(2069));
    }
}

proof fn lemma_terms_2070s(year: int)
    requires
        2070 <= year < 2080,
    ensures
        terms_in_order(year),
{
    if year == 2070 {
        assert(terms_in_order(2070));
    } else if year == 2071 {
        assert(terms_in_order(2071));
    } else if year == 2072 {
        assert(terms_in_order(2072));
    } else if year == 2073 {
        assert(terms_in_order(2073));
    } else if year == 2074 {
        assert(terms_in_order(2074));
    } else if year == 2075 {
        assert(terms_in_order(2075));
    } else if year == 2076 {
        assert(terms_in_order(2076));
    } else if year == 2077 {
        assert(terms_in_order(2077));
    } else if year == 2078 {
        assert(terms_in_order(2078));
    } else if year == 2079 {
        assert(terms_in_order(2079));
    }
}

proof fn lemma_terms_2080s(year: int)
    requires
        2080 <= year < 2090,
    ensures
        terms_in_order(year),
{
    if year == 2080 {
        assert(terms_in_order(2080));
    } else if year == 2081 {
        assert(terms_in_order(2081));
    } else if year == 2082 {
        assert(terms_in_order(2082));
    } else if year == 2083 {
        assert(terms_in_order(2083));
    } else if year == 2084 {
        assert(terms_in_order(2084));
    } else if year == 2085 {
        assert(terms_in_order(2085));
    } else if year == 2086 {
        assert(terms_in_order(2086));
    } else if year == 2087 {
        assert(terms_in_order(2087));
    } else if year == 2088 {
        assert(terms_in_order(2088));
    } else if year == 2089 {
        assert(terms_in_order(2089));
    }
}

proof fn lemma_terms_2090s(year: int)
    requires
        2090 <= year < 2100,
    ensures
        terms_in_order(year),
{
    if year == 2090 {
        assert(terms_in_order(2090));
    } else if year == 2091 {
        assert(terms_in_order(2091));
    } else if year == 2092 {
        assert(terms_in_order(2092));
    } else if year == 2093 {
        assert(terms_in_order(2093));
    } else if year == 2094 {
        assert(terms_in_order(2094));
    } else if year == 2095 {
        assert(terms_in_order(2095));
    } else if year == 2096 {
        assert(terms_in_order(2096));
    } else if year == 2097 {
        assert(terms_in_order(2097));
    } else if year == 2098 {
        assert(terms_in_order(2098));
    } else if year == 2099 {
        assert(terms_in_order(2099));
    }
}

proof fn lemma_terms_2100s(year: int)
    requires
        2100 <= year < 2101,
    ensures
        terms_in_order(year),
{
    assert(terms_in_order(2100));
}

/// In every year of the table the terms fall in order.
pub proof fn lemma_terms_in_order(year: int)
    requires
        in_range(year),
    ensures
        terms_in_order(year),
{
    if year < 1910 {
        lemma_terms_1900s(year);
    } else if year < 1920 {
        lemma_terms_1910s(year);
    } else if year < 1930 {
        lemma_terms_1920s(year);
    } else if year < 1940 {
        lemma_terms_1930s(year);
    } else if year < 1950 {
        lemma_terms_1940s(year);
    } else if year < 1960 {
        lemma_terms_1950s(year);
    } else if year < 1970 {
        lemma_terms_1960s(year);
    } else if year < 1980 {
        lemma_terms_1970s(year);
    } else if year < 1990 {
        lemma_terms_1980s(year);
    } else if year < 2000 {
        lemma_terms_1990s(year);
    } else if year < 2010 {
        lemma_terms_2000s(year);
    } else if year < 2020 {
        lemma_terms_2010s(year);
    } else if year < 2030 {
        lemma_terms_2020s(year);
    } else if year < 2040 {
        lemma_terms_2030s(year);
    } else if year < 2050 {
        lemma_terms_2040s(year);
    } else if year < 2060 {
        lemma_terms_2050s(year);
    } else if year < 2070 {
        lemma_terms_2060s(year);
    } else if year < 2080 {
        lemma_terms_2070s(year);
    } else if year < 2090 {
        lemma_terms_2080s(year);
    } else if year < 2100 {
        lemma_terms_2090s(year);
    } else {
        lemma_terms_2100s(year);
    }
}

} // verus!
