use netatmo_login::text::{decimal_string, push_decimal, replace_chars};

#[test]
fn decimal_of_zero() {
    assert_eq!(decimal_string(0), "0");
}

#[test]
fn decimal_of_single_digits() {
    assert_eq!(decimal_string(7), "7");
    assert_eq!(decimal_string(9), "9");
}

#[test]
fn decimal_of_round_numbers() {
    assert_eq!(decimal_string(10), "10");
    assert_eq!(decimal_string(600), "600");
    assert_eq!(decimal_string(9090), "9090");
}

#[test]
fn decimal_of_largest_values() {
    assert_eq!(decimal_string(u16::MAX as u64), "65535");
    assert_eq!(decimal_string(u32::MAX as u64), "4294967295");
    assert_eq!(decimal_string(u64::MAX), "18446744073709551615");
}

#[test]
fn decimal_agrees_with_std() {
    for n in [1u64, 12, 123, 1000, 10800, 99999, 1234567890] {
        assert_eq!(decimal_string(n), n.to_string());
    }
}

#[test]
fn push_decimal_keeps_what_was_there() {
    let mut out = String::from("port ");
    push_decimal(&mut out, 8080);
    assert_eq!(out, "port 8080");
}

#[test]
fn replace_chars_replaces_every_occurrence() {
    assert_eq!(replace_chars("a+b+c", '+', ' '), "a b c");
    assert_eq!(replace_chars("++", '+', ' '), "  ");
}

#[test]
fn replace_chars_leaves_other_text_alone() {
    assert_eq!(replace_chars("read_thermostat", '+', ' '), "read_thermostat");
    assert_eq!(replace_chars("", '+', ' '), "");
}

#[test]
fn replace_chars_handles_text_beyond_ascii() {
    assert_eq!(replace_chars("é+ü", '+', ' '), "é ü");
}
