use wat::text::{
    chars_of, chars_without_commas, contains, parse_unsigned_text, push_decimal, same_text,
    split_whitespace, starts_with, strip_prefix, trim,
};

#[test]
fn trim_removes_unicode_whitespace_at_both_ends() {
    assert_eq!(trim("  hi there \r\n"), "hi there");
    assert_eq!(trim("\u{3000}x\u{85}"), "x");
    assert_eq!(trim("\u{a0}\u{2009}"), "");
    assert_eq!(trim(""), "");
    assert_eq!(trim("a b"), "a b");
}

#[test]
fn trim_agrees_with_std_trim() {
    for s in ["\t\t tab \t", "\r96\r", "  ", "x", "\u{1680}mid dle\u{205f}", "\u{200b}zero width"] {
        assert_eq!(trim(s), s.trim());
    }
}

#[test]
fn trimming_twice_changes_nothing() {
    for s in [" a ", "\n\nb", "c\u{3000}", ""] {
        assert_eq!(trim(trim(s)), trim(s));
    }
}

#[test]
fn chars_of_gives_every_character() {
    assert_eq!(chars_of("a🔥b"), vec!['a', '🔥', 'b']);
}

#[test]
fn prefixes_and_substrings() {
    assert!(starts_with("Download: 1 Mbps", "Download"));
    assert!(!starts_with("Down", "Download"));
    assert!(starts_with("abc", ""));
    assert!(contains("screen is unlocked", "locked"));
    assert!(!contains("lock", "locked"));
    assert!(contains("", ""));
    assert_eq!(strip_prefix("Current pressure level: Nominal", "Current pressure level: "), Some("Nominal"));
    assert_eq!(strip_prefix("Nominal", "Current pressure level: "), None);
    assert!(same_text("iperf Done.", "iperf Done."));
    assert!(!same_text("iperf Done", "iperf Done."));
}

#[test]
fn words_split_like_split_whitespace() {
    let line = "/dev/disk3s1s1   494G   10G  244G     4%  /";
    assert_eq!(split_whitespace(line), line.split_whitespace().collect::<Vec<_>>());
    assert_eq!(split_whitespace("  a\u{3000}b  "), vec!["a", "b"]);
    assert!(split_whitespace(" \t ").is_empty());
}

#[test]
fn unsigned_numbers_parse_like_std() {
    let max = u32::MAX as u64;
    assert_eq!(parse_unsigned_text("140", max), Some(140));
    assert_eq!(parse_unsigned_text("+7", max), Some(7));
    assert_eq!(parse_unsigned_text("007", max), Some(7));
    assert_eq!(parse_unsigned_text("-0", max), None);
    assert_eq!(parse_unsigned_text("", max), None);
    assert_eq!(parse_unsigned_text("+", max), None);
    assert_eq!(parse_unsigned_text(" 1", max), None);
    assert_eq!(parse_unsigned_text("4294967295", max), Some(4294967295));
    assert_eq!(parse_unsigned_text("4294967296", max), None);
    assert_eq!(parse_unsigned_text("18446744073709551615", u64::MAX), Some(u64::MAX));
    assert_eq!(parse_unsigned_text("18446744073709551616", u64::MAX), None);
    for s in ["12", "+3", "-3", "1_0", "99999999999", "x"] {
        assert_eq!(parse_unsigned_text(s, max).map(|v| v as u32), s.parse::<u32>().ok());
    }
}

#[test]
fn decimal_notation() {
    let mut s = String::new();
    push_decimal(&mut s, 0);
    assert_eq!(s, "0");
    let mut s = String::from("n=");
    push_decimal(&mut s, 1234);
    assert_eq!(s, "n=1234");
}

#[test]
fn decimal_notation_reads_back() {
    for n in [0u64, 9, 10, 140, 4294967295] {
        let mut s = String::new();
        push_decimal(&mut s, n);
        assert_eq!(parse_unsigned_text(&s, u32::MAX as u64), Some(n));
    }
}

#[test]
fn commas_are_left_out() {
    assert_eq!(chars_without_commas("1,234,567"), vec!['1', '2', '3', '4', '5', '6', '7']);
    assert!(chars_without_commas(",,").is_empty());
}
