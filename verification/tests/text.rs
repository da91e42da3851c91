use groupironman::text::{append_integer, append_natural, has_prefix, same_text};

fn integer(i: i64) -> String {
    let mut out = String::new();
    append_integer(&mut out, i);
    out
}

#[test]
fn same_text_tells_equal_from_different() {
    assert!(same_text("", ""));
    assert!(same_text("@SHARED", "@SHARED"));
    assert!(!same_text("@SHARED", "@shared"));
    assert!(!same_text("abc", "ab"));
    assert!(!same_text("ab", "abc"));
    assert!(!same_text("", "a"));
    assert!(same_text("héé", "héé"));
    assert!(!same_text("hée", "héé"));
}

#[test]
fn has_prefix_agrees_with_starts_with() {
    let cases = [
        ("", ""),
        ("abc", ""),
        ("abc", "a"),
        ("abc", "abc"),
        ("abc", "abcd"),
        ("abc", "b"),
        ("", "a"),
        ("https://discord.com/api/webhooks/1", "https://discord.com/api/webhooks/"),
        ("héllo", "hé"),
        ("héllo", "he"),
    ];
    for (s, p) in cases {
        assert_eq!(has_prefix(s, p), s.starts_with(p), "{:?} {:?}", s, p);
    }
}

#[test]
fn append_natural_writes_decimal_digits() {
    let mut out = String::from("n=");
    append_natural(&mut out, 0);
    assert_eq!(out, "n=0");
    let mut out = String::new();
    append_natural(&mut out, 9);
    append_natural(&mut out, 10);
    append_natural(&mut out, 3000);
    assert_eq!(out, "9103000");
    let mut out = String::new();
    append_natural(&mut out, u64::MAX);
    assert_eq!(out, "18446744073709551615");
}

#[test]
fn append_integer_writes_sign_and_digits() {
    assert_eq!(integer(0), "0");
    assert_eq!(integer(7), "7");
    assert_eq!(integer(-1), "-1");
    assert_eq!(integer(-120), "-120");
    assert_eq!(integer(2147483647), "2147483647");
    assert_eq!(integer(-2147483648), "-2147483648");
    assert_eq!(integer(i64::MAX), "9223372036854775807");
    assert_eq!(integer(i64::MIN), "-9223372036854775808");
}

#[test]
fn append_integer_keeps_what_was_there() {
    let mut out = String::from("Alice: ");
    append_integer(&mut out, 2);
    assert_eq!(out, "Alice: 2");
}

#[test]
fn append_integer_agrees_with_display() {
    for i in [-1000i64, -999, -101, -100, -99, -11, -10, -9, 0, 5, 10, 11, 99, 100, 101, 65535] {
        assert_eq!(integer(i), i.to_string());
    }
}
