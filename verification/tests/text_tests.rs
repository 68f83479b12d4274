use reaper::number::{decimal, parse_unsigned};
use reaper::pattern::{contains, is_lex_less, split_after_last, starts_with, strip_suffix};
use reaper::text::{
    char_is_whitespace, chars_of, join_from, split_lines, split_whitespace, str_equal, string_of,
    trim,
};

fn chars(s: &str) -> Vec<char> {
    s.chars().collect()
}

fn text(v: &[char]) -> String {
    v.iter().collect()
}

#[test]
fn chars_and_strings_convert_both_ways() {
    assert_eq!(chars_of("héllo ⠋"), chars("héllo ⠋"));
    assert_eq!(string_of(&chars("héllo ⠋")), "héllo ⠋");
    assert_eq!(chars_of(""), Vec::<char>::new());
    assert_eq!(string_of(&[]), "");
}

#[test]
fn texts_are_equal_when_their_characters_are() {
    assert!(str_equal("Jan", "Jan"));
    assert!(!str_equal("Jan", "jan"));
    assert!(!str_equal("Jan", "Janu"));
    assert!(!str_equal("Jan", "Jam"));
    assert!(str_equal("", ""));
}

#[test]
fn white_space_is_what_unicode_says() {
    for c in [' ', '\t', '\n', '\r', '\u{0B}', '\u{0C}', '\u{85}', '\u{A0}', '\u{1680}', '\u{2000}',
        '\u{200A}', '\u{2028}', '\u{2029}', '\u{202F}', '\u{205F}', '\u{3000}']
    {
        assert!(char_is_whitespace(c));
    }
    for c in ['a', '0', ':', '\u{200B}', '\u{FEFF}', '\u{1C}', '\u{8}', '\u{E}'] {
        assert!(!char_is_whitespace(c));
    }
}

#[test]
fn white_space_agrees_with_the_standard_library() {
    let mut code: u32 = 0;
    while code < 0x3100 {
        if let Some(c) = char::from_u32(code) {
            assert_eq!(char_is_whitespace(c), c.is_whitespace());
        }
        code += 1;
    }
}

#[test]
fn trim_removes_white_space_at_both_ends() {
    assert_eq!(text(trim(&chars("  \t 8080 \n"))), "8080");
    assert_eq!(text(trim(&chars("a b"))), "a b");
    assert_eq!(text(trim(&chars("   "))), "");
    assert_eq!(text(trim(&chars(""))), "");
}

#[test]
fn fields_are_the_runs_between_white_space() {
    assert_eq!(split_whitespace(&chars("  node  1234\troot ")), vec!["node", "1234", "root"]);
    assert_eq!(split_whitespace(&chars("")), Vec::<String>::new());
    assert_eq!(split_whitespace(&chars(" \t ")), Vec::<String>::new());
    assert_eq!(split_whitespace(&chars("one")), vec!["one"]);
}

#[test]
fn fields_agree_with_the_standard_library() {
    for line in ["a b  c", "  lead", "trail  ", "x\u{A0}y", "COMMAND PID USER FD", "\r\n"] {
        let expected: Vec<String> = line.split_whitespace().map(|f| f.to_string()).collect();
        assert_eq!(split_whitespace(&chars(line)), expected);
    }
}

#[test]
fn lines_end_at_line_feeds() {
    let lines = split_lines(&chars("a\nb\r\n\nc"));
    assert_eq!(lines, vec![chars("a"), chars("b"), chars(""), chars("c")]);
    assert_eq!(split_lines(&chars("")), Vec::<Vec<char>>::new());
    assert_eq!(split_lines(&chars("one\n")), vec![chars("one")]);
    assert_eq!(split_lines(&chars("\n")), vec![chars("")]);
}

#[test]
fn lines_agree_with_the_standard_library() {
    for listing in ["a\nb", "a\r\nb\r\n", "\n\n", "no end", "x\r", "x\r\r\ny", ""] {
        let expected: Vec<Vec<char>> = listing.lines().map(|l| l.chars().collect()).collect();
        assert_eq!(split_lines(&chars(listing)), expected);
    }
}

#[test]
fn join_puts_the_separator_between_neighbours() {
    let parts: Vec<String> = vec!["a".to_string(), "b".to_string(), "c".to_string()];
    assert_eq!(join_from(&parts, 0, " "), "a b c");
    assert_eq!(join_from(&parts, 1, ", "), "b, c");
    assert_eq!(join_from(&parts, 2, " "), "c");
    assert_eq!(join_from(&parts, 3, " "), "");
}

#[test]
fn unsigned_numbers_are_read_like_the_standard_library_reads_them() {
    for s in ["0", "7", "007", "+5", "4294967295", "4294967296", "", "+", "-1", "1 ", " 1", "1a",
        "١٢", "18446744073709551615", "18446744073709551616", "000000000000000000000000000012"]
    {
        let expected32 = s.parse::<u32>().ok().map(|v| v as u64);
        assert_eq!(parse_unsigned(&chars(s), u32::MAX as u64), expected32);
        let expected64 = s.parse::<u64>().ok();
        assert_eq!(parse_unsigned(&chars(s), u64::MAX), expected64);
    }
}

#[test]
fn unsigned_numbers_respect_the_limit() {
    assert_eq!(parse_unsigned(&chars("59"), 59), Some(59));
    assert_eq!(parse_unsigned(&chars("60"), 59), None);
    assert_eq!(parse_unsigned(&chars("0"), 0), Some(0));
    assert_eq!(parse_unsigned(&chars("1"), 0), None);
}

#[test]
fn decimal_writes_base_ten() {
    assert_eq!(decimal(0), "0");
    assert_eq!(decimal(9), "9");
    assert_eq!(decimal(10), "10");
    assert_eq!(decimal(1234567890), "1234567890");
    assert_eq!(decimal(u64::MAX), "18446744073709551615");
}

#[test]
fn what_decimal_writes_is_read_back() {
    for n in [0u64, 1, 9, 10, 99, 100, 65535, 4294967295, u64::MAX] {
        assert_eq!(parse_unsigned(&chars(&decimal(n)), u64::MAX), Some(n));
    }
}

#[test]
fn contains_finds_a_text_anywhere() {
    assert!(contains(&chars("hello world"), &chars("lo w")));
    assert!(contains(&chars("hello"), &chars("")));
    assert!(contains(&chars(""), &chars("")));
    assert!(contains(&chars("hello"), &chars("hello")));
    assert!(contains(&chars("hello"), &chars("o")));
    assert!(!contains(&chars("hello"), &chars("hello!")));
    assert!(!contains(&chars("hello"), &chars("L")));
    assert!(!contains(&chars(""), &chars("a")));
}

#[test]
fn starts_with_tests_the_beginning() {
    assert!(starts_with(&chars("tcp6 0 0"), &chars("tcp")));
    assert!(!starts_with(&chars(" tcp"), &chars("tcp")));
    assert!(!starts_with(&chars("tc"), &chars("tcp")));
    assert!(starts_with(&chars("x"), &chars("")));
}

#[test]
fn strip_suffix_removes_the_end_once() {
    assert_eq!(text(strip_suffix(&chars("8080 (LISTEN)"), &chars("(LISTEN)"))), "8080 ");
    assert_eq!(text(strip_suffix(&chars("8080"), &chars("(LISTEN)"))), "8080");
    assert_eq!(text(strip_suffix(&chars("(LISTEN)"), &chars("(LISTEN)"))), "");
    assert_eq!(text(strip_suffix(&chars("abab"), &chars("ab"))), "ab");
}

#[test]
fn split_after_last_cuts_at_the_last_occurrence() {
    assert_eq!(text(split_after_last(&chars("[::1]:631"), ':')), "631");
    assert_eq!(text(split_after_last(&chars("none"), ':')), "none");
    assert_eq!(text(split_after_last(&chars("end:"), ':')), "");
    assert_eq!(text(split_after_last(&chars(""), ':')), "");
}

#[test]
fn dictionary_order_agrees_with_the_standard_library() {
    let words = ["", "a", "ab", "abc", "b", "B", "root", "Root", "é", "z", "node", "nodejs", "𝄞"];
    for a in words {
        for b in words {
            assert_eq!(is_lex_less(&chars(a), &chars(b)), a < b);
        }
    }
}
