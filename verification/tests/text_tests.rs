use matc_ui::text::{decimal_text, hex_text, same_text};

#[test]
fn decimal_texts() {
    assert_eq!(decimal_text(0), "0");
    assert_eq!(decimal_text(7), "7");
    assert_eq!(decimal_text(1234567890), "1234567890");
    assert_eq!(decimal_text(u64::MAX), u64::MAX.to_string());
}

#[test]
fn hex_texts() {
    assert_eq!(hex_text(255, 4, false), "00ff");
    assert_eq!(hex_text(0x1ABCD, 4, true), "1ABCD");
    assert_eq!(hex_text(0, 2, false), "00");
    assert_eq!(hex_text(0xdeadbeef, 0, false), format!("{:x}", 0xdeadbeefu64));
    assert_eq!(hex_text(0x3c, 4, true), format!("{:04X}", 0x3c));
}

#[test]
fn text_comparison() {
    assert!(same_text("abc", "abc"));
    assert!(!same_text("abc", "abd"));
    assert!(!same_text("abc", "ab"));
    assert!(same_text("", ""));
}
