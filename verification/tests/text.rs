use pods::text::{push_decimal, str_eq};

#[test]
fn decimal_notation() {
    let mut s = String::from("port ");
    push_decimal(&mut s, 0);
    assert_eq!(s, "port 0");
    let mut s = String::new();
    push_decimal(&mut s, 8080);
    assert_eq!(s, "8080");
    let mut s = String::new();
    push_decimal(&mut s, 65535);
    assert_eq!(s, "65535");
    let mut s = String::new();
    push_decimal(&mut s, 10);
    assert_eq!(s, "10");
}

#[test]
fn string_equality() {
    assert!(str_eq("abc", "abc"));
    assert!(!str_eq("abc", "abd"));
    assert!(!str_eq("abc", "ab"));
    assert!(str_eq("", ""));
    assert!(str_eq("héllo", "héllo"));
}
