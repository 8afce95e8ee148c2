use dreamcodec::datetime::{epoch_to_datetime, is_leap, session_log_name};

#[test]
fn leap_years() {
    for y in [1972, 1996, 2000, 2004, 2024, 2400] {
        assert!(is_leap(y), "{}", y);
    }
    for y in [1970, 1900, 2100, 2023, 2025, 2200] {
        assert!(!is_leap(y), "{}", y);
    }
}

#[test]
fn known_moments() {
    assert_eq!(epoch_to_datetime(0), (1970, 1, 1, 0, 0, 0));
    assert_eq!(epoch_to_datetime(59), (1970, 1, 1, 0, 0, 59));
    assert_eq!(epoch_to_datetime(86_399), (1970, 1, 1, 23, 59, 59));
    assert_eq!(epoch_to_datetime(86_400), (1970, 1, 2, 0, 0, 0));
    assert_eq!(epoch_to_datetime(31 * 86_400), (1970, 2, 1, 0, 0, 0));
    assert_eq!(epoch_to_datetime(365 * 86_400 - 1), (1970, 12, 31, 23, 59, 59));
    assert_eq!(epoch_to_datetime(365 * 86_400), (1971, 1, 1, 0, 0, 0));
    assert_eq!(epoch_to_datetime(68_169_600), (1972, 2, 29, 0, 0, 0));
    assert_eq!(epoch_to_datetime(951_782_400), (2000, 2, 29, 0, 0, 0));
    assert_eq!(epoch_to_datetime(951_868_800), (2000, 3, 1, 0, 0, 0));
    assert_eq!(epoch_to_datetime(1_000_000_000), (2001, 9, 9, 1, 46, 40));
    assert_eq!(epoch_to_datetime(1_771_353_000), (2026, 2, 17, 18, 30, 0));
    assert_eq!(epoch_to_datetime(4_102_444_800), (2100, 1, 1, 0, 0, 0));
    assert_eq!(epoch_to_datetime(4_107_542_400), (2100, 3, 1, 0, 0, 0));
    assert_eq!(epoch_to_datetime(253_402_300_799), (9999, 12, 31, 23, 59, 59));
}

#[test]
fn every_day_follows_the_one_before() {
    let lengths = [31, 28, 31, 30, 31, 30, 31, 31, 30, 31, 30, 31];
    let (mut y, mut m, mut d) = (1970u64, 1u64, 1u64);
    for day in 0..(366 * 140) {
        let got = epoch_to_datetime(day * 86_400 + 3_661);
        assert_eq!(got, (y, m, d, 1, 1, 1), "day {}", day);
        let leap = (y % 4 == 0 && y % 100 != 0) || y % 400 == 0;
        let length = if m == 2 && leap { 29 } else { lengths[(m - 1) as usize] };
        d += 1;
        if d > length {
            d = 1;
            m += 1;
            if m > 12 {
                m = 1;
                y += 1;
            }
        }
    }
}

#[test]
fn log_file_names() {
    assert_eq!(session_log_name(0), "dreamcodec_1970-01-01_00-00-00.txt");
    assert_eq!(session_log_name(1_771_353_000), "dreamcodec_2026-02-17_18-30-00.txt");
    assert_eq!(session_log_name(253_402_300_799), "dreamcodec_9999-12-31_23-59-59.txt");
    assert_eq!(session_log_name(253_402_300_800), "dreamcodec_10000-01-01_00-00-00.txt");
    assert_eq!(session_log_name(1_000_000_000), "dreamcodec_2001-09-09_01-46-40.txt");
}
