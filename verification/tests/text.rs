use datum_connect::numbers::{decimal_text, decimal_text_padded5, parse_u16, parse_u8};
use datum_connect::text::{
    char_is_control, char_is_whitespace, comes_before, eq_ignore_ascii_case, join, split,
    split_once, split_whitespace, starts_with_text, to_ascii_lowercase, trim,
};

#[test]
fn white_space_and_control_characters_are_those_of_std() {
    for n in 0..=0x10ffffu32 {
        if let Some(c) = char::from_u32(n) {
            assert_eq!(char_is_whitespace(c), c.is_whitespace(), "{n:x}");
            assert_eq!(char_is_control(c), c.is_control(), "{n:x}");
        }
    }
}

#[test]
fn texts_are_cut_as_std_cuts_them() {
    for s in ["", " ", "a", " a b\t\u{2003}c\n", "via x dev y ", "a//b/", "=x=", "\u{85}z\u{3000}"] {
        let words: Vec<&str> = s.split_whitespace().collect();
        assert_eq!(split_whitespace(s), words, "{s:?}");
        assert_eq!(trim(s), s.trim(), "{s:?}");
        let chars: Vec<char> = s.chars().collect();
        let parts: Vec<&str> = s.split('/').collect();
        assert_eq!(split(&chars, '/'), parts, "{s:?}");
        let once = s.split_once('=').map(|(a, b)| (a.to_string(), b.to_string()));
        assert_eq!(split_once(s, '='), once, "{s:?}");
        assert_eq!(to_ascii_lowercase(s), s.to_ascii_lowercase());
    }
    assert_eq!(to_ascii_lowercase("AZ\u{c9}[@"), "AZ\u{c9}[@".to_ascii_lowercase());
}

#[test]
fn texts_are_ordered_as_std_orders_them() {
    let texts = ["", "a", "ab", "b", "B", "\u{e9}", "a\u{10000}", "a\u{ffff}"];
    for a in texts {
        for b in texts {
            assert_eq!(comes_before(a, b), a < b, "{a:?} {b:?}");
            assert_eq!(eq_ignore_ascii_case(a, b), a.eq_ignore_ascii_case(b));
            assert_eq!(starts_with_text(a, b), a.starts_with(b));
        }
    }
}

#[test]
fn parts_are_joined() {
    let parts: Vec<String> = ["a", "", "c"].iter().map(|s| s.to_string()).collect();
    assert_eq!(join(&parts, ", "), "a, , c");
    assert_eq!(join(&vec![], ", "), "");
}

#[test]
fn numbers_are_written_and_read_as_std_does() {
    for n in [0, 7, 10, 12345, 123456, u64::MAX] {
        assert_eq!(decimal_text(n), n.to_string());
        assert_eq!(decimal_text_padded5(n), format!("{n:05}"));
    }
    for s in ["", "+", "0", "+7", "007", "65535", "65536", "255", "256", "-1", "1 ", "99999999999999999999999"] {
        assert_eq!(parse_u16(s), s.parse::<u16>().ok(), "{s:?}");
        assert_eq!(parse_u8(s), s.parse::<u8>().ok(), "{s:?}");
    }
}
