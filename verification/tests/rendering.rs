use pls::fmt::{markup, u64_to_dec, u64_to_oct};

#[test]
fn dec_zero() {
    assert_eq!(u64_to_dec(0), "0");
}

#[test]
fn dec_single_digit() {
    assert_eq!(u64_to_dec(7), "7");
}

#[test]
fn dec_multi_digit() {
    assert_eq!(u64_to_dec(1234567890), "1234567890");
}

#[test]
fn dec_max() {
    assert_eq!(u64_to_dec(u64::MAX), "18446744073709551615");
}

#[test]
fn oct_zero() {
    assert_eq!(u64_to_oct(0), "0");
}

#[test]
fn oct_mode_like() {
    assert_eq!(u64_to_oct(0o755), "755");
    assert_eq!(u64_to_oct(0o4755), "4755");
}

#[test]
fn markup_wraps_value() {
    assert_eq!(markup("red", "x"), "<red>x</>");
}

#[test]
fn markup_empty_value() {
    assert_eq!(markup("dim", ""), "<dim></>");
}
