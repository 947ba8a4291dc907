use sunder::text::{push_decimal, push_hex16};

#[test]
fn hex16_pads_to_sixteen_upper_case_digits() {
    let mut out = String::new();
    push_hex16(&mut out, 0x1_4000_1000);
    assert_eq!(out, "0000000140001000");
    let mut out = String::from("x");
    push_hex16(&mut out, 0xDEAD_BEEF_0123_ABCD);
    assert_eq!(out, "xDEADBEEF0123ABCD");
    let mut out = String::new();
    push_hex16(&mut out, u64::MAX);
    assert_eq!(out, "FFFFFFFFFFFFFFFF");
    let mut out = String::new();
    push_hex16(&mut out, 0);
    assert_eq!(out, "0000000000000000");
}

#[test]
fn decimal_has_no_leading_zeros() {
    let mut out = String::new();
    push_decimal(&mut out, 0);
    assert_eq!(out, "0");
    let mut out = String::new();
    push_decimal(&mut out, 647);
    assert_eq!(out, "647");
    let mut out = String::from("n=");
    push_decimal(&mut out, 10);
    assert_eq!(out, "n=10");
    let mut out = String::new();
    push_decimal(&mut out, u64::MAX);
    assert_eq!(out, "18446744073709551615");
}
