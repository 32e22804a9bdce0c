use resonance_gui::text::{decimal_text, text_contains, text_without};

#[test]
fn contains_finds_fragments() {
    assert!(text_contains("/dev/cu.usbmodem1", "/dev/cu."));
    assert!(text_contains("abc", "c"));
    assert!(text_contains("abc", ""));
    assert!(text_contains("", ""));
    assert!(!text_contains("/dev/tty.usb", "/dev/cu."));
    assert!(!text_contains("ab", "abc"));
    assert!(!text_contains("", "a"));
}

#[test]
fn without_removes_every_occurrence() {
    assert_eq!(text_without("/dev/tty.usbserial-10", "/dev/tty."), "usbserial-10");
    assert_eq!(text_without("/dev/tty./dev/tty.x", "/dev/tty."), "x");
    assert_eq!(text_without("COM3", "/dev/tty."), "COM3");
    assert_eq!(text_without("aaa", "aa"), "a");
    assert_eq!(text_without("abc", ""), "abc");
    assert_eq!(text_without("", "x"), "");
}

#[test]
fn without_agrees_with_replace() {
    let cases = [("/dev/tty.a/dev/tty.b", "/dev/tty."), ("xxyxx", "x"), ("ünï/dev/tty.cödé", "/dev/tty."), ("abab", "ba")];
    for (s, p) in cases {
        assert_eq!(text_without(s, p), s.replace(p, ""));
    }
}

#[test]
fn decimal_numerals() {
    assert_eq!(decimal_text(0), "0");
    assert_eq!(decimal_text(7), "7");
    assert_eq!(decimal_text(10), "10");
    assert_eq!(decimal_text(12345), "12345");
    assert_eq!(decimal_text(usize::MAX), format!("{}", usize::MAX));
}
