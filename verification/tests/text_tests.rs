use ytdl_helper::text::{chars_of, decimal, ends_with, parse_unsigned, same_text, trim};

#[test]
fn trim_removes_surrounding_white_space() {
    assert_eq!(trim("  hello world \n"), "hello world");
    assert_eq!(trim("\t\r\n"), "");
    assert_eq!(trim(""), "");
    assert_eq!(trim("\u{3000}x y\u{a0}\u{2028}"), "x y");
}

#[test]
fn trim_agrees_with_std() {
    for s in ["", " a ", "\u{85}b\u{1680}", "a\u{200b}", "\u{feff}c", "  x\ty  ", "\u{2000}\u{200a}z"] {
        assert_eq!(trim(s), s.trim(), "input {:?}", s);
    }
}

#[test]
fn trim_twice_is_trim_once() {
    for s in ["  a b  ", "\n\n", "x", " \u{3000} y \u{205f}"] {
        let once = trim(s);
        assert_eq!(trim(&once), once);
    }
}

#[test]
fn parse_unsigned_reads_decimal_numerals() {
    assert_eq!(parse_unsigned("255", 255), Some(255));
    assert_eq!(parse_unsigned("256", 255), None);
    assert_eq!(parse_unsigned("+7", 255), Some(7));
    assert_eq!(parse_unsigned("007", 255), Some(7));
    assert_eq!(parse_unsigned("+", 255), None);
    assert_eq!(parse_unsigned("", 255), None);
    assert_eq!(parse_unsigned("-1", 255), None);
    assert_eq!(parse_unsigned("-0", 255), None);
    assert_eq!(parse_unsigned("12a", 255), None);
    assert_eq!(parse_unsigned(" 1", 255), None);
    assert_eq!(parse_unsigned("18446744073709551615", u64::MAX), Some(u64::MAX));
    assert_eq!(parse_unsigned("18446744073709551616", u64::MAX), None);
}

#[test]
fn parse_unsigned_agrees_with_std() {
    for s in ["0", "1", "42", "+42", "++1", "4x", "", "+", "-3", "999", "٣", "00000000000000000000001"] {
        assert_eq!(parse_unsigned(s, 255), s.parse::<u8>().ok().map(u64::from), "u8 {:?}", s);
        assert_eq!(parse_unsigned(s, u64::MAX), s.parse::<u64>().ok(), "u64 {:?}", s);
    }
}

#[test]
fn decimal_writes_base_ten() {
    assert_eq!(decimal(0), "0");
    assert_eq!(decimal(7), "7");
    assert_eq!(decimal(2160), "2160");
    assert_eq!(decimal(u64::MAX), u64::MAX.to_string());
}

#[test]
fn decimal_reads_back() {
    for n in [0u64, 9, 10, 255, 1000, 123456789, u64::MAX] {
        assert_eq!(parse_unsigned(&decimal(n), u64::MAX), Some(n));
    }
}

#[test]
fn ends_with_tests_suffixes() {
    assert!(ends_with("ffmpeg-7.0/bin/ffmpeg.exe", "ffmpeg.exe"));
    assert!(ends_with("deno", "deno"));
    assert!(ends_with("anything", ""));
    assert!(!ends_with("eno", "deno"));
    assert!(!ends_with("deno.exe", "deno"));
    assert!(ends_with("dir/é/ünï", "ünï"));
}

#[test]
fn same_text_and_chars() {
    assert!(same_text("abc", "abc"));
    assert!(!same_text("abc", "abd"));
    assert!(!same_text("abc", "ab"));
    assert_eq!(chars_of("aé"), vec!['a', 'é']);
}
