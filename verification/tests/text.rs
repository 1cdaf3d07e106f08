use window_dock::text::{concat_str, is_blank_str, is_whitespace_char, prefixed_decimal, push_decimal};

#[test]
fn decimal_matches_display() {
    for n in [0i64, 7, -7, 10, -10, 1234567, i64::MAX, i64::MIN, isize::MIN as i64, i32::MIN as i64] {
        let mut s = String::from("n=");
        push_decimal(&mut s, n);
        assert_eq!(s, format!("n={n}"));
        assert_eq!(prefixed_decimal("#", n), format!("#{n}"));
    }
}

#[test]
fn whitespace_matches_char_is_whitespace() {
    for code in 0u32..=0x10FFFF {
        if let Some(c) = char::from_u32(code) {
            assert_eq!(is_whitespace_char(c), c.is_whitespace(), "U+{code:04X}");
        }
    }
}

#[test]
fn blank_means_trim_leaves_nothing() {
    for s in ["", " ", "\t\n", "\u{2003}\u{3000}", " a ", "x", "\u{200B}"] {
        assert_eq!(is_blank_str(s), s.trim().is_empty(), "{s:?}");
    }
    assert_eq!(concat_str("ab", "cd"), "abcd");
}
