use distributed_cicd::text::{parse_u16, push_decimal};

fn decimal_of(n: u32) -> String {
    let mut s = String::new();
    push_decimal(&mut s, n);
    s
}

#[test]
fn decimal_small_and_large() {
    assert_eq!(decimal_of(0), "0");
    assert_eq!(decimal_of(7), "7");
    assert_eq!(decimal_of(10), "10");
    assert_eq!(decimal_of(42), "42");
    assert_eq!(decimal_of(1000), "1000");
    assert_eq!(decimal_of(u32::MAX), "4294967295");
}

#[test]
fn decimal_appends() {
    let mut s = String::from("id=");
    push_decimal(&mut s, 305);
    assert_eq!(s, "id=305");
}

#[test]
fn parse_accepts_ports() {
    assert_eq!(parse_u16("5001"), Some(5001));
    assert_eq!(parse_u16("0"), Some(0));
    assert_eq!(parse_u16("007"), Some(7));
    assert_eq!(parse_u16("+80"), Some(80));
    assert_eq!(parse_u16("65535"), Some(65535));
}

#[test]
fn parse_rejects_what_std_rejects() {
    for s in ["", "+", "-", "-1", "65536", "99999999999", "12a", " 1", "1 ", "++1", "١٢"] {
        assert_eq!(parse_u16(s), None, "{s}");
        assert!(s.parse::<u16>().is_err(), "{s}");
    }
}

#[test]
fn parse_agrees_with_std() {
    for s in ["0", "1", "+1", "00065535", "65535", "65536", "4", "+", "x", "12345", "70000"] {
        assert_eq!(parse_u16(s), s.parse::<u16>().ok(), "{s}");
    }
}

#[test]
fn decimal_round_trips_through_parse() {
    for n in [0u16, 1, 9, 10, 99, 5001, 65535] {
        assert_eq!(parse_u16(&decimal_of(n as u32)), Some(n));
    }
}
