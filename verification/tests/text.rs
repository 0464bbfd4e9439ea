use malachite_node::text::{is_ipv4, join, parse_usize, push_decimal, same_text};

#[test]
fn decimal_rendering() {
    let mut s = "n".to_string();
    push_decimal(&mut s, 0);
    assert_eq!(s, "n0");
    let mut t = String::new();
    push_decimal(&mut t, 1234567890);
    assert_eq!(t, "1234567890");
    let mut m = String::new();
    push_decimal(&mut m, usize::MAX);
    assert_eq!(m, usize::MAX.to_string());
}

#[test]
fn decimal_parsing() {
    assert_eq!(parse_usize("42"), Some(42));
    assert_eq!(parse_usize("+42"), Some(42));
    assert_eq!(parse_usize("007"), Some(7));
    assert_eq!(parse_usize(""), None);
    assert_eq!(parse_usize("+"), None);
    assert_eq!(parse_usize("-1"), None);
    assert_eq!(parse_usize("4 2"), None);
    assert_eq!(parse_usize(&usize::MAX.to_string()), Some(usize::MAX));
    assert_eq!(parse_usize("184467440737095516160"), None);
}

#[test]
fn path_joining() {
    assert_eq!(join("/a", "b"), "/a/b");
    assert_eq!(join("/a/", "b"), "/a/b");
    assert_eq!(join("", "b"), "b");
    assert_eq!(join("/", "b"), "/b");
}

#[test]
fn text_equality() {
    assert!(same_text("abc", "abc"));
    assert!(!same_text("abc", "abd"));
}

#[test]
fn ipv4_text() {
    for good in ["127.0.0.1", "0.0.0.0", "255.255.255.255", "10.20.30.40"] {
        assert!(is_ipv4(good), "{good}");
    }
    for bad in [
        "", "1.2.3", "1.2.3.4.5", "256.0.0.1", "10.0.0.01", "a.b.c.d", "1..2.3", "1.2.3.4 ",
        ".1.2.3", "1.2.3.", "1234.1.1.1", "localhost",
    ] {
        assert!(!is_ipv4(bad), "{bad}");
    }
}
