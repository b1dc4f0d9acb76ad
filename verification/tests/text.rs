//! Text helpers, held against the standard library's.

use vibepanel::keyboard_layout::{extract_short_name, LayoutFormat};
use vibepanel::names::NameMap;
use vibepanel::network_speed::NetworkSpeedFormat;
use vibepanel::text;

const SAMPLES: [&str; 14] = [
    "",
    " ",
    "a",
    "a,b,,c",
    "  padded\t",
    "\u{2003}wide spaces\u{00a0}",
    "one\ntwo\r\nthree\n",
    "\n\n",
    "no newline at end\r",
    "key = value = more",
    "caf\u{e9} \u{1f600}",
    "aaa",
    "/usr/share/x",
    "trailing,",
];

#[test]
fn whitespace_is_that_of_the_standard_library() {
    let mut n: u32 = 0;
    while n <= 0x10ffff {
        if let Some(c) = char::from_u32(n) {
            assert_eq!(text::is_whitespace(c), c.is_whitespace(), "U+{:04X}", n);
        }
        n += 1;
    }
}

#[test]
fn trimming_and_splitting_agree_with_the_standard_library() {
    for s in SAMPLES {
        assert_eq!(text::trim(s), s.trim(), "{:?}", s);
        assert_eq!(text::lines(s), s.lines().collect::<Vec<_>>(), "{:?}", s);
        assert_eq!(text::split(s, ','), s.split(',').collect::<Vec<_>>(), "{:?}", s);
        assert_eq!(text::split_once(s, '='), s.split_once('='), "{:?}", s);
        assert_eq!(text::split_once_str(s, " = "), s.split_once(" = "), "{:?}", s);
        assert_eq!(text::chars_of(s), s.chars().collect::<Vec<_>>());
    }
}

#[test]
fn searching_agrees_with_the_standard_library() {
    for s in SAMPLES {
        for p in ["", "a", "aa", "wide", "\u{e9}", "e", ",", "/"] {
            assert_eq!(text::contains_str(s, p), s.contains(p), "{:?} {:?}", s, p);
            assert_eq!(text::starts_with(s, p), s.starts_with(p), "{:?} {:?}", s, p);
            assert_eq!(text::strip_prefix(s, p), s.strip_prefix(p), "{:?} {:?}", s, p);
            if !p.is_empty() {
                assert_eq!(text::replace_str(s, p, "<>"), s.replace(p, "<>"), "{:?} {:?}", s, p);
            }
        }
    }
}

#[test]
fn positions_count_characters() {
    let s = "\u{e9}\u{e9}=x=";
    assert_eq!(text::find_char(s, '='), Some(2));
    assert_eq!(text::rfind_char(s, '='), Some(4));
    assert_eq!(text::find_char(s, 'q'), None);
    assert_eq!(text::rfind_char(s, 'q'), None);
    assert_eq!(text::find_str(s, "=x"), Some(2));
}

#[test]
fn numbers_are_written_as_the_standard_library_writes_them() {
    for n in [0u64, 7, 10, 99, 100, 4294967295, u64::MAX] {
        assert_eq!(text::decimal(n), n.to_string());
    }
    for n in [0i32, -1, 42, i32::MAX, i32::MIN] {
        assert_eq!(text::decimal_signed(n), n.to_string());
    }
    for b in 0u8..=255 {
        assert_eq!(text::hex_byte(b), format!("{:#04x}", b));
    }
}

#[test]
fn numbers_are_read_as_the_standard_library_reads_them() {
    for s in ["", "0", "+", "+7", "-1", "007", "4294967295", "4294967296", "1 ", "1a", "99999999999999"] {
        assert_eq!(text::parse_u32(s), s.parse::<u32>().ok(), "{:?}", s);
    }
}

#[test]
fn joining_puts_separators_between() {
    let none: Vec<String> = Vec::new();
    assert_eq!(text::join(&none, ", "), "");
    assert_eq!(text::join(&vec!["a".to_string()], ", "), "a");
    assert_eq!(text::join(&vec!["a".to_string(), String::new(), "c".to_string()], ", "), "a, , c");
}

#[test]
fn equality_ignores_only_ascii_case() {
    assert!(text::eq_ignore_ascii_case("HeLLo", "hEllO"));
    assert!(!text::eq_ignore_ascii_case("\u{c9}", "\u{e9}"));
    assert!(!text::eq_ignore_ascii_case("a", "ab"));
    assert!(text::str_eq("\u{e9}", "\u{e9}"));
    assert!(!text::str_eq("a", "A"));
}

#[test]
fn letters_are_ascii_or_not_as_asked() {
    assert!(text::is_alphabetic("abcXYZ"));
    assert!(!text::is_alphabetic("ab1"));
}

#[test]
fn small_letters_are_those_of_the_standard_library() {
    assert_eq!(LayoutFormat::parse("LONG"), LayoutFormat::Long);
    assert_eq!(LayoutFormat::parse("lOnG"), LayoutFormat::Long);
    assert_eq!(LayoutFormat::parse("short"), LayoutFormat::Short);
    assert_eq!(NetworkSpeedFormat::from_str("DL"), NetworkSpeedFormat::Download);
    // The Kelvin sign has a small letter of its own, which is no ASCII match.
    assert_eq!(NetworkSpeedFormat::from_str("U\u{212a}"), NetworkSpeedFormat::Both);
}

#[test]
fn capitals_are_those_of_the_standard_library() {
    let codes: NameMap<String> = NameMap::new();
    assert_eq!(extract_short_name("us", &codes), "US");
    assert_eq!(extract_short_name("br", &codes), "BR");
}
