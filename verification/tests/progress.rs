use dreamcodec::pattern::find;
use dreamcodec::progress::{
    clock_sum, compute_percentage, counter_from_groups, duration_from_groups, elapsed_from_groups,
    parse_duration, parse_elapsed, read_number, read_seconds, ConversionProgress, ConversionStatus,
    DURATION_PATTERN, FULL_PERCENTAGE, OUT_TIME_US_PATTERN, TIME_PATTERN,
};

fn groups(list: &[Option<&str>]) -> Vec<Option<String>> {
    list.iter().map(|g| g.map(|t| t.to_string())).collect()
}

#[test]
fn duration_is_read_from_the_banner() {
    assert_eq!(
        parse_duration("  Duration: 00:01:40.00, start: 0.000000, bitrate: 1205 kb/s"),
        Some(100_000_000)
    );
    assert_eq!(parse_duration("Duration: 01:02:03.45"), Some(3_723_450_000));
    assert_eq!(parse_duration("Duration: 00:00:00.00"), Some(0));
    assert_eq!(parse_duration("Duration: N/A, bitrate: N/A"), None);
    assert_eq!(parse_duration("frame=  100 fps= 25"), None);
    assert_eq!(parse_duration("duration: 00:01:40.00"), None);
    assert_eq!(parse_duration("Duration: 00:01:40"), None);
}

#[test]
fn elapsed_time_is_read_in_every_spelling() {
    assert_eq!(parse_elapsed("frame=1 time=00:00:25.50 bitrate=1.0kbits/s"), Some(25_500_000));
    assert_eq!(parse_elapsed("out_time=00:00:50.000000"), Some(50_000_000));
    assert_eq!(parse_elapsed("out_time_us=75000000"), Some(75_000_000));
    assert_eq!(parse_elapsed("out_time_ms=80000000"), Some(80_000_000));
    assert_eq!(parse_elapsed("time=10:00:00.5"), Some(36_000_500_000));
    assert_eq!(parse_elapsed("out_time_us=N/A"), None);
    assert_eq!(parse_elapsed("progress=continue"), None);
    assert_eq!(parse_elapsed("speed=1.5x"), None);
    assert_eq!(parse_elapsed(""), None);
}

#[test]
fn fractions_are_cut_to_microseconds() {
    assert_eq!(parse_elapsed("time=00:00:01.1234567"), Some(1_123_456));
    assert_eq!(parse_elapsed("time=00:00:01.000001"), Some(1_000_001));
    assert_eq!(parse_elapsed("time=00:00:01.9"), Some(1_900_000));
    assert_eq!(parse_elapsed("time=00:00:00.0000009"), Some(0));
}

#[test]
fn great_numbers_are_held_to_the_range() {
    assert_eq!(parse_elapsed("time=99999999999999999999:00:00.0"), Some(u64::MAX));
    assert_eq!(parse_elapsed("out_time_us=99999999999999999999999"), Some(u64::MAX));
    assert_eq!(parse_elapsed("time=5124095576030431:00:15.0"), Some(u64::MAX));
    assert_eq!(clock_sum(u64::MAX, 0, 0), u64::MAX);
    assert_eq!(clock_sum(0, 0, u64::MAX), u64::MAX);
    assert_eq!(clock_sum(1, 1, 1), 3_660_000_001);
}

#[test]
fn groups_are_read_as_fields() {
    let clock = groups(&[Some("time=01:02:03.5"), Some("01"), Some("02"), Some("03"), Some("5")]);
    assert_eq!(elapsed_from_groups(&clock), 3_723_500_000);
    assert_eq!(duration_from_groups(&clock), Some(3_723_500_000));

    let odd = groups(&[Some("x"), Some("1"), None, Some("٣"), Some("5")]);
    assert_eq!(elapsed_from_groups(&odd), 3_600_000_000);
    assert_eq!(duration_from_groups(&odd), None);

    let short = groups(&[Some("x"), Some("2")]);
    assert_eq!(elapsed_from_groups(&short), 7_200_000_000);
    assert_eq!(duration_from_groups(&short), None);
    assert_eq!(counter_from_groups(&short), Some(2));
    assert_eq!(counter_from_groups(&groups(&[Some("x")])), None);
    assert_eq!(counter_from_groups(&groups(&[Some("x"), Some("1x")])), None);

    assert_eq!(read_number(Some("42")), Some(42));
    assert_eq!(read_number(Some("")), None);
    assert_eq!(read_number(None), None);
    assert_eq!(read_seconds(Some("7"), Some("25")), Some(7_250_000));
    assert_eq!(read_seconds(Some("7"), Some("")), None);
    assert_eq!(read_seconds(Some("7"), None), None);
    assert_eq!(read_seconds(None, Some("5")), None);
    assert_eq!(read_seconds(Some("7"), Some("5a")), None);
}

#[test]
fn search_returns_the_groups_of_the_first_match() {
    let found = find(TIME_PATTERN, "x time=00:00:01.50 y time=00:00:09.00").expect("a match");
    assert_eq!(
        found,
        groups(&[Some("time=00:00:01.50"), Some("00"), Some("00"), Some("01"), Some("50")])
    );
    assert_eq!(find(TIME_PATTERN, "time=abc"), None);
    assert_eq!(find(OUT_TIME_US_PATTERN, "out_time_us=12"), Some(groups(&[Some("out_time_us=12"), Some("12")])));
    assert_eq!(find(r"(a)|(b)", "b"), Some(groups(&[Some("b"), None, Some("b")])));
    assert_eq!(find(r"(unclosed", "unclosed"), None);
    assert!(find(DURATION_PATTERN, "Duration: 1:2:3.4").is_some());
}

#[test]
fn percentage_is_the_share_of_the_duration() {
    assert_eq!(compute_percentage(25_500_000, 100_000_000), 25_500);
    assert_eq!(compute_percentage(0, 1), 0);
    assert_eq!(compute_percentage(1, 3), 33_333);
    assert_eq!(compute_percentage(100, 100), FULL_PERCENTAGE);
    assert_eq!(compute_percentage(101, 100), FULL_PERCENTAGE);
    assert_eq!(compute_percentage(u64::MAX, 1), FULL_PERCENTAGE);
    assert_eq!(compute_percentage(u64::MAX, u64::MAX), FULL_PERCENTAGE);
    assert_eq!(compute_percentage(u64::MAX - 1, u64::MAX), 99_999);
}

#[test]
fn lines_move_progress_forward_only() {
    let mut p = ConversionProgress::new("job".to_string());
    assert!(matches!(p.status, ConversionStatus::Pending));
    assert_eq!((p.percentage, p.current_time, p.duration), (0, 0, 0));

    p.record_line("frame=1 time=00:00:05.00");
    assert_eq!((p.percentage, p.current_time, p.duration), (0, 5_000_000, 0));

    p.record_line("  Duration: 00:01:40.00, start: 0.000000");
    assert_eq!((p.percentage, p.current_time, p.duration), (0, 5_000_000, 100_000_000));

    let mut seen = Vec::new();
    for line in [
        "out_time_us=10000000",
        "out_time=00:00:25.500000",
        "out_time_us=20000000",
        "time=00:00:50.00 bitrate=N/A",
        "progress=continue",
        "out_time_ms=99000000",
        "time=00:02:00.00",
        "time=00:00:01.00",
    ] {
        let before = (p.percentage, p.current_time);
        p.record_line(line);
        assert!(p.percentage >= before.0, "{}", line);
        assert!(p.current_time >= before.1, "{}", line);
        assert!(p.percentage <= FULL_PERCENTAGE);
        seen.push(p.percentage);
    }
    assert_eq!(seen, vec![10_000, 25_500, 25_500, 50_000, 50_000, 99_000, 100_000, 100_000]);
    assert_eq!(p.current_time, 120_000_000);
    assert_eq!(p.duration, 100_000_000);
    assert_eq!(p.log.len(), 10);
    assert_eq!(p.log[0], "frame=1 time=00:00:05.00");
    assert_eq!(p.log[9], "time=00:00:01.00");
    assert!(matches!(p.status, ConversionStatus::Pending));
}

#[test]
fn duration_is_taken_once() {
    let mut p = ConversionProgress::new("job".to_string());
    p.record_line("Duration: 00:00:00.00");
    assert_eq!(p.duration, 0);
    p.record_line("Duration: 00:00:10.00");
    assert_eq!(p.duration, 10_000_000);
    p.record_line("Duration: 00:00:20.00");
    assert_eq!(p.duration, 10_000_000);
    p.record_line("Duration: 00:00:05.00 time=00:00:05.00");
    assert_eq!((p.duration, p.current_time, p.percentage), (10_000_000, 5_000_000, 50_000));
}

#[test]
fn one_line_may_bring_duration_and_time() {
    let mut p = ConversionProgress::new("job".to_string());
    p.record_line("Duration: 00:00:08.00 time=00:00:02.00");
    assert_eq!((p.duration, p.current_time, p.percentage), (8_000_000, 2_000_000, 25_000));
}

#[test]
fn snapshot_is_a_copy() {
    let mut p = ConversionProgress::new("job-7".to_string());
    p.record_line("Duration: 00:00:08.00");
    p.error_message = Some("broken".to_string());
    p.status = ConversionStatus::Failed("broken".to_string());
    let copy = p.snapshot();
    assert_eq!(copy.task_id, "job-7");
    assert!(matches!(&copy.status, ConversionStatus::Failed(m) if m == "broken"));
    assert_eq!(copy.duration, 8_000_000);
    assert_eq!(copy.log, p.log);
    assert_eq!(copy.error_message.as_deref(), Some("broken"));
    p.record_line("time=00:00:04.00");
    assert_eq!(copy.log.len(), 1);
    assert_eq!(copy.percentage, 0);
    assert!(ConversionStatus::Completed.is_terminal());
    assert!(ConversionStatus::Cancelled.is_terminal());
    assert!(ConversionStatus::Failed(String::new()).is_terminal());
    assert!(!ConversionStatus::Pending.is_terminal());
    assert!(!ConversionStatus::Running.is_terminal());
}
