use mistboard::text::{decimal_string, is_white_space_char, trim_white_space};

#[test]
fn trim_removes_surrounding_white_space() {
    assert_eq!(trim_white_space("  北京 \n"), "北京");
    assert_eq!(trim_white_space("\t上海\r\n"), "上海");
    assert_eq!(trim_white_space("New York"), "New York");
    assert_eq!(trim_white_space("  New  York  "), "New  York");
}

#[test]
fn trim_of_blank_text_is_empty() {
    assert_eq!(trim_white_space(""), "");
    assert_eq!(trim_white_space("   "), "");
    assert_eq!(trim_white_space("\u{3000}\u{00A0}\u{2003}"), "");
}

#[test]
fn trim_matches_std_trim() {
    let samples = [
        "", " ", "a", " a", "a ", " a b ", "\u{3000}广州\u{3000}", "\u{85}x\u{2028}",
        "\u{200B}zero-width\u{200B}", "\u{FEFF}bom", "x\u{1680}", "\u{202F}y\u{205F}",
    ];
    for s in samples {
        assert_eq!(trim_white_space(s), s.trim(), "sample {:?}", s);
    }
}

#[test]
fn white_space_matches_std() {
    for u in 0u32..0x3100 {
        if let Some(c) = char::from_u32(u) {
            assert_eq!(is_white_space_char(c), c.is_whitespace(), "code point {:#x}", u);
        }
    }
}

#[test]
fn decimal_numerals() {
    assert_eq!(decimal_string(0), "0");
    assert_eq!(decimal_string(7), "7");
    assert_eq!(decimal_string(45), "45");
    assert_eq!(decimal_string(100), "100");
    assert_eq!(decimal_string(-3), "-3");
    assert_eq!(decimal_string(i64::MAX), i64::MAX.to_string());
    assert_eq!(decimal_string(i64::MIN), i64::MIN.to_string());
}
