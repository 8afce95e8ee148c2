use dreamcodec::decimal::{decimal_text, parse_decimal_str, signed_decimal_text};
use dreamcodec::text::{
    append_text, chars_of, contains, find_substring, first_line_of, join, split, split_lines,
    str_eq, string_of,
};

#[test]
fn substring_search() {
    assert!(contains("h264_nvenc", "nvenc"));
    assert!(contains("h264_nvenc", "h264"));
    assert!(contains("h264_nvenc", ""));
    assert!(contains("", ""));
    assert!(!contains("", "a"));
    assert!(!contains("libx264", "nvenc"));
    assert!(!contains("nven", "nvenc"));
    assert!(contains("aab", "ab"));
    assert!(contains("größe nvenc", "nvenc"));
    assert!(!contains("NVENC", "nvenc"));
}

#[test]
fn first_place_of_a_substring() {
    let hay = chars_of("abcabc");
    assert_eq!(find_substring(&hay, &chars_of("bc")), Some(1));
    assert_eq!(find_substring(&hay, &chars_of("abc")), Some(0));
    assert_eq!(find_substring(&hay, &chars_of("")), Some(0));
    assert_eq!(find_substring(&hay, &chars_of("cab")), Some(2));
    assert_eq!(find_substring(&hay, &chars_of("abcd")), None);
    assert_eq!(find_substring(&hay, &chars_of("abcabcx")), None);
}

#[test]
fn texts_are_compared_by_characters() {
    assert!(str_eq("mp4", "mp4"));
    assert!(!str_eq("mp4", "mp3"));
    assert!(!str_eq("mp4", "mp"));
    assert!(str_eq("", ""));
}

#[test]
fn characters_round_trip() {
    let v = chars_of("héllo");
    assert_eq!(v, vec!['h', 'é', 'l', 'l', 'o']);
    assert_eq!(string_of(&v, 0, 5), "héllo");
    assert_eq!(string_of(&v, 1, 3), "él");
    assert_eq!(string_of(&v, 2, 2), "");
    assert_eq!(append_text("ab", "cd"), "abcd");
}

#[test]
fn joining() {
    let parts = vec!["-y".to_string(), "-i".to_string(), "in file.mkv".to_string()];
    assert_eq!(join(&parts, " "), "-y -i in file.mkv");
    assert_eq!(join(&Vec::new(), " "), "");
    assert_eq!(join(&vec!["one".to_string()], ", "), "one");
    assert_eq!(join(&vec!["".to_string(), "".to_string()], "-"), "-");
}

#[test]
fn lines_end_with_lf_or_crlf() {
    assert_eq!(split_lines(""), Vec::<String>::new());
    assert_eq!(split_lines("one"), vec!["one"]);
    assert_eq!(split_lines("one\n"), vec!["one"]);
    assert_eq!(split_lines("one\ntwo"), vec!["one", "two"]);
    assert_eq!(split_lines("one\r\ntwo\r\n"), vec!["one", "two"]);
    assert_eq!(split_lines("\n\n"), vec!["", ""]);
    assert_eq!(split_lines("a\rb\r"), vec!["a\rb\r"]);
    assert_eq!(split_lines("\r\n"), vec![""]);
    assert_eq!(split_lines("a\r\r\nb"), vec!["a\r", "b"]);
    for text in ["", "x", "x\n", "\nx", "a\r\nb\n\nc", "\r", "\r\n\r\n", "tail\r"] {
        let expected: Vec<String> = text.lines().map(|l| l.to_string()).collect();
        assert_eq!(split_lines(text), expected, "{:?}", text);
        assert_eq!(first_line_of(text), text.lines().next().map(|l| l.to_string()), "{:?}", text);
    }
}

#[test]
fn decimal_numbers_are_written() {
    assert_eq!(decimal_text(0), "0");
    assert_eq!(decimal_text(7), "7");
    assert_eq!(decimal_text(10), "10");
    assert_eq!(decimal_text(1234567890), "1234567890");
    assert_eq!(decimal_text(u64::MAX), "18446744073709551615");
    assert_eq!(signed_decimal_text(0), "0");
    assert_eq!(signed_decimal_text(-1), "-1");
    assert_eq!(signed_decimal_text(i32::MIN), "-2147483648");
    assert_eq!(signed_decimal_text(i32::MAX), "2147483647");
}

#[test]
fn decimal_numbers_are_read() {
    assert_eq!(parse_decimal_str("0"), Some(0));
    assert_eq!(parse_decimal_str("007"), Some(7));
    assert_eq!(parse_decimal_str("18446744073709551615"), Some(u64::MAX));
    assert_eq!(parse_decimal_str("18446744073709551616"), Some(u64::MAX));
    assert_eq!(parse_decimal_str("99999999999999999999999999"), Some(u64::MAX));
    assert_eq!(parse_decimal_str(""), None);
    assert_eq!(parse_decimal_str("12a"), None);
    assert_eq!(parse_decimal_str("-1"), None);
    assert_eq!(parse_decimal_str("+1"), None);
    assert_eq!(parse_decimal_str("١٢"), None);
    assert_eq!(parse_decimal_str("1.5"), None);
}

#[test]
fn splitting() {
    for (text, sep) in [("a,b,c", ','), ("", ','), (",", ','), ("a,,b,", ','), ("no separator", ','), (",x", ','), ("a;b", ';')] {
        let expected: Vec<String> = text.split(sep).map(|p| p.to_string()).collect();
        assert_eq!(split(text, sep), expected, "{:?}", text);
    }
    assert_eq!(split("a,b,c", ','), vec!["a", "b", "c"]);
    assert_eq!(split("", ','), vec![""]);
    assert_eq!(split("a,,b,", ','), vec!["a", "", "b", ""]);
}
