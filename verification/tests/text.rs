use imp_geo::number::{
    decimal_string, is_fraction_text, parse_i32, parse_i64, parse_plain_u64, parse_u64,
};
use imp_geo::text::{
    chars_of, is_space_char, joined, normalize_name, same_text, stands_before, starts_with,
    string_of,
};

#[test]
fn normal_form_of_names() {
    assert_eq!(normalize_name("  St. John's  "), "St John\u{2019}s");
    assert_eq!(normalize_name("..."), "");
    assert_eq!(normalize_name(""), "");
    assert_eq!(normalize_name(" \t\u{a0}x\u{3000}\n"), "x");
    assert_eq!(normalize_name("a b"), "a b");
    assert_eq!(normalize_name("'''"), "\u{2019}\u{2019}\u{2019}");
    assert_eq!(normalize_name("Zürich"), "Zürich");
}

#[test]
fn garbled_apostrophes_are_mended() {
    assert_eq!(normalize_name("O\u{e2}\u{20ac}\u{2122}Hare"), "O\u{2019}Hare");
    assert_eq!(normalize_name("\u{e2}\u{20ac}\u{2122}"), "\u{2019}");
    assert_eq!(normalize_name("\u{e2}.\u{20ac}.\u{2122}."), "\u{2019}");
    assert_eq!(normalize_name("\u{e2}\u{e2}\u{20ac}\u{2122}\u{20ac}\u{2122}"), "\u{e2}\u{2019}\u{20ac}\u{2122}");
    assert_eq!(normalize_name("\u{e2}\u{20ac}"), "\u{e2}\u{20ac}");
    assert_eq!(normalize_name("\u{e2}'\u{20ac}\u{2122}"), "\u{e2}\u{2019}\u{20ac}\u{2122}");
    for s in ["a\u{e2}\u{20ac}\u{2122}b", "\u{e2}.\u{20ac}\u{2122}", "x'\u{e2}\u{20ac}\u{2122}'"] {
        let n = normalize_name(s);
        assert!(!n.contains("\u{e2}\u{20ac}\u{2122}"));
        assert_eq!(normalize_name(&n), n);
    }
}

#[test]
fn normal_form_has_no_stop_and_no_apostrophe() {
    for s in ["a.b'c", " .'. ", "D.C.", "o'neil", "plain", ". a"] {
        let n = normalize_name(s);
        assert!(!n.contains('.'));
        assert!(!n.contains('\''));
    }
}

#[test]
fn normalizing_twice_changes_nothing_more() {
    for s in ["  St. John's  ", "plain", "a.b'c", " x y ", ""] {
        let once = normalize_name(s);
        assert_eq!(normalize_name(&once), once);
    }
    let once = normalize_name(". a");
    assert_eq!(once, " a");
    assert_eq!(normalize_name(&once), "a");
}

#[test]
fn white_space_characters() {
    for c in [' ', '\t', '\n', '\r', '\u{b}', '\u{c}', '\u{85}', '\u{a0}', '\u{1680}', '\u{2000}', '\u{200a}', '\u{2028}', '\u{2029}', '\u{202f}', '\u{205f}', '\u{3000}'] {
        assert!(is_space_char(c));
        assert!(c.is_whitespace());
    }
    for c in ['a', '.', '\u{200b}', '\u{feff}', '\u{8}', '\u{e}', '\u{2019}'] {
        assert!(!is_space_char(c));
        assert!(!c.is_whitespace());
    }
    for n in 0u32..0x3100 {
        if let Some(c) = char::from_u32(n) {
            assert_eq!(is_space_char(c), c.is_whitespace());
        }
    }
}

#[test]
fn text_helpers() {
    assert_eq!(chars_of("añb"), vec!['a', 'ñ', 'b']);
    assert_eq!(string_of(&vec!['x', 'ÿ']), "xÿ");
    assert!(same_text("abc", "abc"));
    assert!(!same_text("abc", "abd"));
    assert!(!same_text("abc", "ab"));
    assert_eq!(joined("ab", "cd"), "abcd");
    assert!(starts_with("admin1Codes", "admin1"));
    assert!(!starts_with("admin", "admin1"));
    assert!(starts_with("x", ""));
    assert!(stands_before("a", "b"));
    assert!(stands_before("", "a"));
    assert!(!stands_before("a", ""));
    assert!(!stands_before("a", "a"));
    assert!(stands_before("a", "aa"));
    assert!(stands_before("Z", "a"));
    for (a, b) in [("ZY", "ZZ"), ("é", "z"), ("z", "é"), ("ab", "abc"), ("b", "abc")] {
        assert_eq!(stands_before(a, b), a < b);
    }
}

#[test]
fn whole_numbers_in_fields() {
    assert_eq!(parse_i64("0"), Some(0));
    assert_eq!(parse_i64("5332921"), Some(5332921));
    assert_eq!(parse_i64("-17"), Some(-17));
    assert_eq!(parse_i64("+17"), Some(17));
    assert_eq!(parse_i64("007"), Some(7));
    assert_eq!(parse_i64("9223372036854775807"), Some(i64::MAX));
    assert_eq!(parse_i64("-9223372036854775808"), Some(i64::MIN));
    assert_eq!(parse_i64("9223372036854775808"), None);
    assert_eq!(parse_i64("-9223372036854775809"), None);
    assert_eq!(parse_i64("99999999999999999999999999999999999999999"), None);
    assert_eq!(parse_i64(""), None);
    assert_eq!(parse_i64("+"), None);
    assert_eq!(parse_i64("-"), None);
    assert_eq!(parse_i64(" 1"), None);
    assert_eq!(parse_i64("1 "), None);
    assert_eq!(parse_i64("1.5"), None);
    assert_eq!(parse_i64("1_000"), None);
    assert_eq!(parse_i64("0x1F"), Some(31));
    assert_eq!(parse_i64("0xff"), Some(255));
    assert_eq!(parse_i64("0x"), None);
    assert_eq!(parse_i64("0xg"), None);
    assert_eq!(parse_i64("1f"), None);
    assert_eq!(parse_i32("2147483647"), Some(i32::MAX));
    assert_eq!(parse_i32("2147483648"), None);
    assert_eq!(parse_i32("-2147483648"), Some(i32::MIN));
    assert_eq!(parse_i32("020"), Some(20));
    assert_eq!(parse_u64("18446744073709551615"), Some(u64::MAX));
    assert_eq!(parse_u64("18446744073709551616"), None);
    assert_eq!(parse_u64("-1"), None);
    assert_eq!(parse_u64("+1"), Some(1));
    for s in ["12", "-12", "+0", "00", "abc", "", "-", "9223372036854775807", "92233720368547758070"] {
        assert_eq!(parse_i64(s), s.parse::<i64>().ok());
        assert_eq!(parse_i32(s), s.parse::<i32>().ok());
        assert_eq!(parse_u64(s), s.parse::<u64>().ok());
    }
}

#[test]
fn numbers_written_in_base_ten() {
    assert_eq!(decimal_string(0), "0");
    assert_eq!(decimal_string(7), "7");
    assert_eq!(decimal_string(5432), "5432");
    assert_eq!(decimal_string(1000), "1000");
    assert_eq!(decimal_string(u64::MAX), "18446744073709551615");
}

#[test]
fn decimal_fractions_in_fields() {
    for s in [
        "0", "1", "51.5", "-0.1", "+3.25", "1.", ".5", "-.5", "1e5", "1E5", "1.5e-3", "1.e5",
        ".5e+10", "inf", "-inf", "+Infinity", "INFINITY", "nan", "NaN", "-nan", "007.100",
        "123456789012345678901234567890.5",
    ] {
        assert!(is_fraction_text(s), "{}", s);
    }
    for s in [
        "", "+", "-", ".", "e5", "1e", "1e+", "1.5.2", "1,5", " 1", "1 ", "--1", "+-1", "1e5.5",
        "0x10", "infin", "infinityy", "na", "nane", "1_000", "1f", "\u{661}",
    ] {
        assert!(!is_fraction_text(s), "{}", s);
    }
    let pieces = ["", "+", "-", "1", "23", ".", "e", "E", "inf", "nan", "x", "5", "Infinity"];
    for a in pieces {
        for b in pieces {
            for c in pieces {
                for d in pieces {
                    let s = format!("{}{}{}{}", a, b, c, d);
                    assert_eq!(is_fraction_text(&s), s.parse::<f64>().is_ok(), "{:?}", s);
                }
            }
        }
    }
}

#[test]
fn plain_numbers_in_settings() {
    assert_eq!(parse_plain_u64("5432"), Some(5432));
    assert_eq!(parse_plain_u64("+5432"), Some(5432));
    assert_eq!(parse_plain_u64("0x10"), None);
    assert_eq!(parse_plain_u64("-1"), None);
    assert_eq!(parse_plain_u64(""), None);
    for s in ["0", "18446744073709551615", "18446744073709551616", "+", "1a", "00012"] {
        assert_eq!(parse_plain_u64(s), s.parse::<u64>().ok());
    }
}
