use flex::text::{decimal_string, pad, trim, whitespace};

#[test]
fn trim_removes_outer_white_space_only() {
    assert_eq!(trim("  \n a b \t\n"), "a b");
    assert_eq!(trim(""), "");
    assert_eq!(trim(" \u{3000}\u{85}"), "");
    assert_eq!(trim("x"), "x");
    assert_eq!(trim("\u{2003}é è\u{a0}"), "é è");
}

#[test]
fn trim_agrees_with_the_standard_library() {
    let samples = ["", " ", "a", " a", "a ", "  a  b  ", "\n\ta\r\n", "\u{1680}x\u{205f}", "\u{200b}x "];
    for s in samples {
        assert_eq!(trim(s), s.trim());
    }
}

#[test]
fn whitespace_agrees_with_the_standard_library() {
    let mut n: u32 = 0;
    while n <= 0x10FFFF {
        if let Some(c) = char::from_u32(n) {
            assert_eq!(whitespace(c), c.is_whitespace(), "U+{:04X}", n);
        }
        n += 1;
    }
}

#[test]
fn pad_fills_up_to_the_width() {
    assert_eq!(pad("init", 16), "init            ");
    assert_eq!(pad("init", 16), format!("{:<16}", "init"));
    assert_eq!(pad("", 3), "   ");
    assert_eq!(pad("exactly", 7), "exactly");
    assert_eq!(pad("longer than that", 4), "longer than that");
    assert_eq!(pad("é", 3), format!("{:<3}", "é"));
}

#[test]
fn decimal_string_writes_base_ten() {
    assert_eq!(decimal_string(0), "0");
    assert_eq!(decimal_string(7), "7");
    assert_eq!(decimal_string(10), "10");
    assert_eq!(decimal_string(1234567890), "1234567890");
    assert_eq!(decimal_string(usize::MAX), usize::MAX.to_string());
}
