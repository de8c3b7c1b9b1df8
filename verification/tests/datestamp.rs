use orambi::datestamp::prefix;

#[test]
fn prefix_of_a_date() {
    assert_eq!(prefix((2012, 6, 13)), "2012_06_13_");
    assert_eq!(prefix((1999, 12, 31)), "1999_12_31_");
    assert_eq!(prefix((2024, 1, 1)), "2024_01_01_");
}

#[test]
fn prefix_pads_month_and_day_only() {
    assert_eq!(prefix((12, 3, 4)), "12_03_04_");
    assert_eq!(prefix((0, 10, 9)), "0_10_09_");
    assert_eq!(prefix((987, 9, 10)), "987_09_10_");
}

#[test]
fn prefix_writes_any_triple() {
    assert_eq!(prefix((0, 0, 0)), "0_00_00_");
    assert_eq!(prefix((65535, 255, 100)), "65535_255_100_");
    assert_eq!(prefix((10000, 99, 13)), "10000_99_13_");
}

#[test]
fn prefix_agrees_with_the_formatter() {
    for year in [0u16, 7, 10, 99, 100, 2012, 9999, 10000, 65535] {
        for month in 0u8..=255 {
            let day = month.wrapping_mul(7);
            assert_eq!(prefix((year, month, day)), format!("{}_{:02}_{:02}_", year, month, day));
        }
    }
}

#[test]
fn prefix_is_digits_and_underscores() {
    for date in [(0u16, 0u8, 0u8), (2012, 6, 13), (65535, 255, 255), (7, 10, 1)] {
        let text = prefix(date);
        assert!(text.len() >= 6);
        assert!(text.starts_with(|c: char| c.is_ascii_digit()));
        assert!(text.ends_with('_'));
        assert!(text.chars().all(|c| c == '_' || c.is_ascii_digit()));
        assert_eq!(text.matches('_').count(), 3);
    }
}
