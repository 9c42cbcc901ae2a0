use hijri_date::{DateError, Duration, HijriDate};

#[test]
fn hijri_to_gregorian_scenario() {
    let hd = HijriDate::from_hijri(1439, 11, 19).unwrap();
    assert_eq!((2018, 8, 1), (hd.year_gr, hd.month_gr, hd.day_gr));
}

#[test]
fn gregorian_to_hijri_scenario() {
    let hd = HijriDate::from_gr(2000, 7, 31).unwrap();
    assert_eq!((1421, 4, 29), (hd.year, hd.month, hd.day));
}

#[test]
fn ordering_across_the_window() {
    let late = HijriDate::from_hijri(1500, 12, 30).unwrap();
    let early = HijriDate::from_hijri(1356, 1, 1).unwrap();
    assert!(late > early);
    assert!(early < late);
    assert!(late != early);
}

#[test]
fn subtract_duration_scenario() {
    let a = HijriDate::from_hijri(1420, 6, 15).unwrap();
    let b = HijriDate::from_hijri(1420, 5, 29).unwrap();
    assert_eq!(a.sub_duration(Duration::days(16)).unwrap(), b);
}

#[test]
fn date_difference_scenario() {
    let a = HijriDate::from_hijri(1356, 6, 15).unwrap();
    let b = HijriDate::from_hijri(1356, 6, 7).unwrap();
    assert_eq!(a.sub_date(&b), Duration::days(8));
}

#[test]
fn round_trip_through_gregorian() {
    for &(y, m, d) in &[(1400usize, 7usize, 15usize), (1439, 11, 19), (1421, 4, 29)] {
        let hd = HijriDate::from_hijri(y, m, d).unwrap();
        let back = HijriDate::from_gr(hd.year_gr, hd.month_gr, hd.day_gr).unwrap();
        assert_eq!(hd, back);
        assert_eq!((y, m, d), (back.year, back.month, back.day));
    }
}

#[test]
fn round_trip_through_hijri() {
    for &(y, m, d) in &[(1950usize, 1usize, 1usize), (2000, 2, 29), (2018, 8, 1), (2076, 12, 31)] {
        let hd = HijriDate::from_gr(y, m, d).unwrap();
        let back = HijriDate::from_hijri(hd.year, hd.month, hd.day).unwrap();
        assert_eq!(hd, back);
        assert_eq!((y, m, d), (back.year_gr, back.month_gr, back.day_gr));
    }
}

#[test]
fn add_then_subtract_is_identity() {
    let hd = HijriDate::from_hijri(1420, 6, 15).unwrap();
    for &n in &[0i64, 1, 16, 354, -100] {
        let shifted = hd.add_duration(Duration::days(n)).unwrap();
        let back = shifted.sub_duration(Duration::days(n)).unwrap();
        assert_eq!(hd, back);
        assert_eq!((back.year, back.month, back.day), (1420, 6, 15));
    }
}

#[test]
fn earlier_date_gives_positive_difference() {
    let a = HijriDate::from_hijri(1400, 1, 1).unwrap();
    let b = HijriDate::from_hijri(1400, 2, 1).unwrap();
    assert!(a < b);
    assert!(b.sub_date(&a).num_days() > 0);
    assert_eq!(a.sub_date(&b).num_days(), -b.sub_date(&a).num_days());
}

#[test]
fn month_length_matches_table() {
    let hd = HijriDate::from_hijri(1439, 11, 1).unwrap();
    assert_eq!(hd.month_len, hijri_date::umalqura::month_length_x(1439, 11));
    assert!(hd.month_len == 29 || hd.month_len == 30);
    assert!(HijriDate::from_hijri(1439, 11, hd.month_len).is_ok());
    assert_eq!(
        HijriDate::from_hijri(1439, 11, hd.month_len + 1),
        Err(DateError::InvalidDay)
    );
}

#[test]
fn hijri_boundaries_rejected() {
    assert_eq!(
        HijriDate::from_hijri(1355, 1, 1),
        Err(DateError::YearOutOfSupportedRange { min: 1356, max: 1500 })
    );
    assert_eq!(
        HijriDate::from_hijri(1501, 1, 1),
        Err(DateError::YearOutOfSupportedRange { min: 1356, max: 1500 })
    );
    assert_eq!(HijriDate::from_hijri(1400, 13, 1), Err(DateError::InvalidMonth));
    assert_eq!(HijriDate::from_hijri(1400, 0, 1), Err(DateError::InvalidMonth));
    assert_eq!(HijriDate::from_hijri(1400, 1, 31), Err(DateError::InvalidDay));
    assert_eq!(HijriDate::from_hijri(1400, 1, 0), Err(DateError::InvalidDay));
}

#[test]
fn gregorian_boundaries_rejected() {
    assert_eq!(
        HijriDate::from_gr(1937, 12, 31),
        Err(DateError::YearOutOfSupportedRange { min: 1938, max: 2076 })
    );
    assert_eq!(
        HijriDate::from_gr(2077, 1, 1),
        Err(DateError::YearOutOfSupportedRange { min: 1938, max: 2076 })
    );
    assert_eq!(HijriDate::from_gr(2000, 13, 1), Err(DateError::InvalidMonth));
    assert_eq!(HijriDate::from_gr(2000, 2, 30), Err(DateError::InvalidDay));
    assert_eq!(HijriDate::from_gr(1999, 2, 29), Err(DateError::InvalidDay));
    assert!(HijriDate::from_gr(2000, 2, 29).is_ok());
}

#[test]
fn validation_functions_answer_directly() {
    assert_eq!(hijri_date::valid_hijri_date(1400, 1, 15), Ok(()));
    assert_eq!(
        hijri_date::valid_hijri_date(1340, 1, 15),
        Err(DateError::YearOutOfSupportedRange { min: 1356, max: 1500 })
    );
    assert_eq!(hijri_date::valid_greorian_date(2000, 7, 31), Ok(()));
    assert_eq!(hijri_date::valid_greorian_date(2000, 7, 32), Err(DateError::InvalidDay));
}

#[test]
fn shifting_off_the_table_fails() {
    let hd = HijriDate::from_hijri(1500, 12, 30).unwrap();
    assert_eq!(hd.add_duration(Duration::days(1)), Err(DateError::DateOutOfTableBounds));
    let first = HijriDate::from_hijri(1356, 1, 1).unwrap();
    assert_eq!(first.sub_duration(Duration::days(1)), Err(DateError::DateOutOfTableBounds));
    assert!(first.add_duration(Duration::days(1)).is_ok());
}

#[test]
fn english_names_follow_the_civil_calendar() {
    let hd = HijriDate::from_gr(2018, 8, 1).unwrap();
    assert_eq!(hd.day_name_en, "Wednesday");
    assert_eq!(hd.month_name_en, "August");
    let hd2 = HijriDate::from_gr(2000, 1, 1).unwrap();
    assert_eq!(hd2.day_name_en, "Saturday");
    assert_eq!(hd2.month_name_en, "January");
}

#[test]
fn arabic_names_are_reshaped() {
    let hd = HijriDate::from_hijri(1440, 9, 1).unwrap();
    assert_eq!(hd.month_name, arabic_reshaper::arabic_reshape("رمضان"));
    let wed = HijriDate::from_gr(2018, 8, 1).unwrap();
    assert_eq!(wed.day_name, arabic_reshaper::arabic_reshape("الاربعاء"));
}

#[test]
fn format_substitutes_numeric_tokens() {
    let hd = HijriDate::from_hijri(1439, 11, 19).unwrap();
    assert_eq!(hd.format("%Y-%m-%d"), "1439-11-19");
    assert_eq!(hd.format("%gY/%gm/%gd"), "2018/8/1");
    assert_eq!(hd.format("%l"), "29");
    assert_eq!(hd.format("%gD"), "Wednesday");
}

#[test]
fn format_keeps_plain_text_and_unknown_tokens() {
    let hd = HijriDate::from_hijri(1439, 11, 19).unwrap();
    assert_eq!(hd.format("plain text"), "plain text");
    assert_eq!(hd.format("%q%"), "%q%");
    assert_eq!(hd.format("100% sure"), "100% sure");
    assert_eq!(hd.format("length l stays"), "length l stays");
}

#[test]
fn format_prefers_the_longer_token() {
    let hd = HijriDate::from_hijri(1439, 11, 19).unwrap();
    assert_eq!(hd.format("%gY"), "2018");
    assert_ne!(hd.format("%gY"), format!("{}gY", hd.year));
    assert_eq!(hd.format("%gm%m"), "811");
}

#[test]
fn display_form_holds_both_calendars() {
    let hd = HijriDate::from_hijri(1439, 11, 19).unwrap();
    let shown = hd.display_string();
    let expected = format!(
        "{}\n{}\n",
        hd.format("%Y %M %D"),
        hd.format("%gD %gM %gY")
    );
    assert_eq!(shown, expected);
}

#[test]
fn first_table_day_is_march_1937() {
    let hd = HijriDate::from_hijri(1356, 1, 1).unwrap();
    assert_eq!((1937, 3, 14), (hd.year_gr, hd.month_gr, hd.day_gr));
    assert_eq!(hd.day_name_en, "Sunday");
}
