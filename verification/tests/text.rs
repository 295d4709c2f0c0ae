use async_discord::text::{push_decimal, starts_with, str_equals};

fn decimal(n: u64) -> String {
    let mut s = String::from("#");
    push_decimal(&mut s, n);
    s
}

#[test]
fn decimal_rendering() {
    assert_eq!(decimal(0), "#0");
    assert_eq!(decimal(7), "#7");
    assert_eq!(decimal(10), "#10");
    assert_eq!(decimal(12345), "#12345");
    assert_eq!(decimal(u64::MAX), "#18446744073709551615");
}

#[test]
fn prefix_tests() {
    assert!(starts_with("~ping now", "~ping"));
    assert!(starts_with("~ping", "~ping"));
    assert!(starts_with("anything", ""));
    assert!(!starts_with("~pin", "~ping"));
    assert!(!starts_with("!ping", "~ping"));
    assert!(starts_with("héllo", "hé"));
    assert!(!starts_with("hello", "hé"));
}

#[test]
fn equality_tests() {
    assert!(str_equals("MESSAGE_REACTION_ADD", "MESSAGE_REACTION_ADD"));
    assert!(!str_equals("MESSAGE_REACTION_ADD", "MESSAGE_REACTION"));
    assert!(!str_equals("abc", "abd"));
    assert!(str_equals("", ""));
}
