use chrono::{Datelike, NaiveDate};
use nongli::data::SOLAR_TERMS;
use nongli::solar_term::SolarTerm;

#[test]
fn solar_term_test() {
    for (i, solar_terms) in SOLAR_TERMS.iter().enumerate() {
        let year = i + 1900;
        for (j, day) in solar_terms.iter().enumerate() {
            let month = j as u32 / 2 + 1;
            let date = NaiveDate::from_ymd_opt(year as i32, month, *day as u32).unwrap();
            assert_eq!(
                SolarTerm::from_date(date.year(), date.month(), date.day()),
                SolarTerm::from_ordinal(j as u8)
            );
        }
    }
}

#[test]
fn shuangjiang_of_2023() {
    assert_eq!(SolarTerm::from_date(2023, 10, 25), Some(SolarTerm::Shuangjiang));
    assert_eq!(SolarTerm::from_date(2023, 10, 8), Some(SolarTerm::Hanlu));
    assert_eq!(SolarTerm::from_date(2023, 10, 9), None);
}

#[test]
fn terms_of_known_days() {
    assert_eq!(SolarTerm::from_date(2023, 4, 5), Some(SolarTerm::Qingming));
    assert_eq!(SolarTerm::from_date(2023, 12, 22), Some(SolarTerm::Dongzhi));
    assert_eq!(SolarTerm::from_date(2024, 2, 4), Some(SolarTerm::Lichun));
    assert_eq!(SolarTerm::from_date(2000, 3, 20), Some(SolarTerm::Chunfen));
    assert_eq!(SolarTerm::from_date(2024, 6, 21), Some(SolarTerm::Xiazhi));
    assert_eq!(SolarTerm::from_date(2021, 12, 21), Some(SolarTerm::Dongzhi));
    assert_eq!(SolarTerm::from_date(2000, 1, 6), Some(SolarTerm::Xiaohan));
}

#[test]
fn days_without_a_term() {
    assert_eq!(SolarTerm::from_date(2023, 4, 6), None);
    assert_eq!(SolarTerm::from_date(1899, 4, 5), None);
    assert_eq!(SolarTerm::from_date(2101, 4, 5), None);
    assert_eq!(SolarTerm::from_date(2023, 0, 5), None);
    assert_eq!(SolarTerm::from_date(2023, 13, 5), None);
    assert_eq!(SolarTerm::from_date(2023, 4, 0), None);
    assert_eq!(SolarTerm::from_date(2023, 4, 256 + 5), None);
    assert_eq!(SolarTerm::from_date(i32::MIN, u32::MAX, u32::MAX), None);
}

#[test]
fn terms_and_their_places() {
    let all = [
        SolarTerm::Xiaohan,
        SolarTerm::Dahan,
        SolarTerm::Lichun,
        SolarTerm::Yushui,
        SolarTerm::Jingzhe,
        SolarTerm::Chunfen,
        SolarTerm::Qingming,
        SolarTerm::Guyu,
        SolarTerm::Lixia,
        SolarTerm::Xiaoman,
        SolarTerm::Mangzhong,
        SolarTerm::Xiazhi,
        SolarTerm::Xiaoshu,
        SolarTerm::Dashu,
        SolarTerm::Liqiu,
        SolarTerm::Chushu,
        SolarTerm::Bailu,
        SolarTerm::Qiufen,
        SolarTerm::Hanlu,
        SolarTerm::Shuangjiang,
        SolarTerm::Lidong,
        SolarTerm::Xiaoxue,
        SolarTerm::Daxue,
        SolarTerm::Dongzhi,
    ];
    for (place, term) in all.iter().enumerate() {
        assert_eq!(term.as_ordinal() as usize, place);
        assert_eq!(SolarTerm::from_ordinal(place as u8), Some(*term));
        assert_eq!(term.is_midterm(), place % 2 == 1);
    }
    assert_eq!(SolarTerm::from_ordinal(24), None);
    assert_eq!(SolarTerm::from_ordinal(255), None);
    assert!(SolarTerm::Shuangjiang.is_midterm());
    assert!(!SolarTerm::Hanlu.is_midterm());
}
