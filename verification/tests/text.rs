use nexus::text::{
    decimal_text, join, lines, parse_u8, signed_decimal_text, split, split_once, strip_prefix, trim,
};

#[test]
fn numbers_are_written_in_decimal() {
    for n in [0, 9, 10, 1_234_567_890, u64::MAX] {
        assert_eq!(decimal_text(n), n.to_string());
    }
    for n in [0, -1, 42, i64::MIN, i64::MAX] {
        assert_eq!(signed_decimal_text(n), n.to_string());
    }
}

#[test]
fn texts_are_split_like_the_standard_does() {
    for text in ["", "a", "a b", " a  b ", "a:b:c", "é ü"] {
        let expected: Vec<String> = text.split(' ').map(String::from).collect();
        assert_eq!(split(text, ' '), expected, "{text:?}");
        let once = text.split_once(':').map(|(a, b)| (a.to_string(), b.to_string()));
        assert_eq!(split_once(text, ':'), once, "{text:?}");
    }
}

#[test]
fn lines_end_like_the_standard_says() {
    for text in ["", "\n", "a", "a\n", "a\r\nb", "a\r", "\r\n\r\n", "a\n\nb", "a\r\r\nb"] {
        let expected: Vec<String> = text.lines().map(String::from).collect();
        assert_eq!(lines(text), expected, "{text:?}");
    }
}

#[test]
fn white_space_is_trimmed_in_every_script() {
    for text in ["", "  ", "\u{3000}a b\u{a0}", "\t\r\n", "x", "\u{200b}x"] {
        assert_eq!(trim(text), text.trim(), "{text:?}");
    }
}

#[test]
fn prefixes_are_stripped() {
    assert_eq!(strip_prefix("cursor: 5", "cursor: "), Some("5".to_string()));
    assert_eq!(strip_prefix("cursor:", "cursor: "), None);
    assert_eq!(strip_prefix("", ""), Some(String::new()));
}

#[test]
fn small_numbers_are_parsed_like_the_standard_does() {
    for text in ["0", "255", "256", "", "+1", "-1", "+", "007", "1a", "9999999999", "٣"] {
        assert_eq!(parse_u8(text), text.parse::<u8>().ok(), "{text:?}");
    }
}

#[test]
fn parts_are_joined() {
    assert_eq!(join(&vec![], ", "), "");
    assert_eq!(join(&vec!["a".to_string()], ", "), "a");
    assert_eq!(join(&vec!["a".to_string(), "b".to_string()], ", "), "a, b");
}
