use aw_watcher_media_player::decimal::{parse_u64, to_decimal};
use aw_watcher_media_player::number::is_above_zero;
use aw_watcher_media_player::text::{
    chars_of, eq_ignore_ascii_case, join, str_contains, str_equal, trim,
};

#[test]
fn trim_removes_unicode_whitespace_at_both_ends() {
    assert_eq!(trim("  a b \t\n"), "a b");
    assert_eq!(trim("\u{a0}\u{3000}x\u{2003}\u{85}"), "x");
    assert_eq!(trim(" \u{2028} "), "");
    assert_eq!(trim(""), "");
    assert_eq!(trim("\u{200b}x"), "\u{200b}x");
    for text in [" é ", "\u{1680}a\u{180e}", "x\u{202f}", "\u{205f}\u{feff}"] {
        assert_eq!(trim(text), text.trim());
    }
}

#[test]
fn chars_are_read_in_order() {
    assert_eq!(chars_of("aé𝄞"), vec!['a', 'é', '𝄞']);
    assert!(chars_of("").is_empty());
}

#[test]
fn comparison_ignores_ascii_case_only() {
    assert!(eq_ignore_ascii_case("Data", "dATA"));
    assert!(!eq_ignore_ascii_case("data", "data "));
    assert!(!eq_ignore_ascii_case("É", "é"));
    assert!(eq_ignore_ascii_case("", ""));
    assert!(str_equal("abc", "abc"));
    assert!(!str_equal("abc", "abd"));
    assert!(!str_equal("abc", "ab"));
}

#[test]
fn search_finds_contiguous_runs() {
    assert!(str_contains("spotify free", "spotify"));
    assert!(str_contains("spotify free", "free"));
    assert!(str_contains("spotify free", ""));
    assert!(str_contains("", ""));
    assert!(!str_contains("spotify", "spotify free"));
    assert!(!str_contains("spotfy", "spotify"));
    assert!(str_contains("aab", "ab"));
}

#[test]
fn join_puts_separator_between_neighbours() {
    assert_eq!(join(&vec![], ", "), "");
    assert_eq!(join(&vec!["A".to_string()], ", "), "A");
    assert_eq!(join(&vec!["A".to_string(), "B".to_string(), String::new()], ", "), "A, B, ");
}

#[test]
fn decimal_text_round_trips() {
    assert_eq!(to_decimal(0), "0");
    assert_eq!(to_decimal(7), "7");
    assert_eq!(to_decimal(200), "200");
    assert_eq!(to_decimal(u64::MAX), "18446744073709551615");
    assert_eq!(parse_u64("200"), Some(200));
    assert_eq!(parse_u64("+15"), Some(15));
    assert_eq!(parse_u64("007"), Some(7));
    assert_eq!(parse_u64("18446744073709551615"), Some(u64::MAX));
    assert_eq!(parse_u64("18446744073709551616"), None);
    assert_eq!(parse_u64("99999999999999999999999"), None);
    for text in ["", "+", "-1", "-0", "1.5", "12a", " 1", "1 ", "++1", "0x10", "１"] {
        assert_eq!(parse_u64(text), None, "{text:?}");
        assert!(text.parse::<u64>().is_err(), "{text:?}");
    }
}

#[test]
fn sign_of_decimal_text() {
    for text in ["1", "0.5", "+2", "1e-7", "1.5E300", ".5", "5.", "inf", "+Infinity", "100", "0.0001", "1e400"] {
        assert_eq!(is_above_zero(text), Some(true), "{text:?}");
        assert!(text.parse::<f64>().unwrap() > 0.0, "{text:?}");
    }
    for text in ["0", "0.0", "-0.0", "-1", "-2.5e3", "nan", "NaN", "-inf", "-nan", "0e5", "+0", "000.000"] {
        assert_eq!(is_above_zero(text), Some(false), "{text:?}");
        assert!(!(text.parse::<f64>().unwrap() > 0.0), "{text:?}");
    }
    for text in ["", "+", "-", ".", "e5", "1e", "1e+", "1.2.3", "1 ", " 1", "0x1", "infinit", "1f", "1_000", "--1", "1e5.0"] {
        assert_eq!(is_above_zero(text), None, "{text:?}");
        assert!(text.parse::<f64>().is_err(), "{text:?}");
    }
}
