use rustrdp::text::{characters, decimal_string, parse_u16, strip_prefix, trim};

#[test]
fn decimal_of_numbers() {
    assert_eq!(decimal_string(0), "0");
    assert_eq!(decimal_string(10), "10");
    assert_eq!(decimal_string(3389), "3389");
    assert_eq!(decimal_string(u16::MAX), "65535");
}

#[test]
fn every_number_reads_back() {
    for n in 0..=u16::MAX {
        assert_eq!(parse_u16(&decimal_string(n)), Some(n));
        assert_eq!(decimal_string(n), n.to_string());
    }
}

#[test]
fn parsing_agrees_with_the_standard_library() {
    for text in [
        "", "+", "-", "0", "00", "+7", "-0", "-1", "65535", "65536", "99999999999999999999", "1 ",
        " 1", "1a", "\u{661}", "+00065535", "++1", "3389",
    ] {
        assert_eq!(parse_u16(text), text.parse::<u16>().ok(), "{text:?}");
    }
}

#[test]
fn trimming_agrees_with_the_standard_library() {
    for text in ["", " ", "a", " a b ", "\t\n\u{3000}x\u{2028}", "\u{200b}x", "\u{85}\u{1680}x\u{b}\u{c}"] {
        assert_eq!(trim(text), text.trim(), "{text:?}");
    }
}

#[test]
fn white_space_agrees_with_the_standard_library() {
    for code in 0..=0x10ffffu32 {
        if let Some(c) = char::from_u32(code) {
            assert_eq!(trim(&c.to_string()).is_empty(), c.is_whitespace(), "{code:x}");
        }
    }
}

#[test]
fn prefixes_are_stripped() {
    assert_eq!(strip_prefix("cmd:x", "cmd:"), Some("x"));
    assert_eq!(strip_prefix("xcmd:", "cmd:"), None);
    assert_eq!(strip_prefix("cm", "cmd:"), None);
    assert_eq!(strip_prefix("äö", "ä"), Some("ö"));
}

#[test]
fn characters_of_a_text() {
    assert_eq!(characters("aä€😀"), vec!['a', 'ä', '€', '😀']);
}
