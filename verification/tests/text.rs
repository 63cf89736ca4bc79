use typr::text::{first_line_of, joined, push_decimal, push_int, same_text, trim_text};

#[test]
fn trims_unicode_white_space() {
    assert_eq!(trim_text("  a b \t\n"), "a b");
    assert_eq!(trim_text("\u{2003}x\u{205f}"), "x");
    assert_eq!(trim_text(" \r\n "), "");
    assert_eq!(trim_text(""), "");
    // U+180E is not white space.
    assert_eq!(trim_text("\u{180e}x"), "\u{180e}x");
    for s in ["  q ", "\u{85}z\u{a0}", "abc", " \u{3000} "] {
        assert_eq!(trim_text(s), s.trim());
    }
}

#[test]
fn first_lines_like_std() {
    for s in ["", "a", "a\nb", "a\r\nb", "a\r", "\n", "\r\n", "x\ry\nz", "last\n"] {
        assert_eq!(first_line_of(s), s.lines().next().map(|l| l.to_string()), "for {:?}", s);
    }
}

#[test]
fn decimal_writing() {
    for n in [0u64, 7, 10, 99, 12345, u64::MAX] {
        let mut s = String::from("n=");
        push_decimal(&mut s, n);
        assert_eq!(s, format!("n={}", n));
    }
    for i in [0i32, -1, 42, i32::MIN, i32::MAX] {
        let mut s = String::new();
        push_int(&mut s, i);
        assert_eq!(s, i.to_string());
    }
}

#[test]
fn comparing_and_joining() {
    assert!(same_text("local", "local"));
    assert!(!same_text("local", "Local"));
    assert_eq!(joined("Paste failed: ", "x"), "Paste failed: x");
}
