use window_inspector::decimal::{push_decimal, push_nat_digits};

fn decimal(value: i64) -> String {
    let mut text = String::new();
    push_decimal(&mut text, value);
    text
}

#[test]
fn small_numbers() {
    assert_eq!(decimal(0), "0");
    assert_eq!(decimal(7), "7");
    assert_eq!(decimal(10), "10");
    assert_eq!(decimal(100), "100");
    assert_eq!(decimal(1234567890), "1234567890");
}

#[test]
fn negative_numbers_carry_a_minus_sign() {
    assert_eq!(decimal(-1), "-1");
    assert_eq!(decimal(-120), "-120");
    assert_eq!(decimal(-4294967295), "-4294967295");
}

#[test]
fn the_ends_of_the_range() {
    assert_eq!(decimal(i64::MAX), "9223372036854775807");
    assert_eq!(decimal(i64::MIN), "-9223372036854775808");
}

#[test]
fn digits_are_appended_to_what_is_there() {
    let mut text = String::from("x = ");
    push_decimal(&mut text, -305);
    assert_eq!(text, "x = -305");
    push_nat_digits(&mut text, 0);
    assert_eq!(text, "x = -3050");
    push_nat_digits(&mut text, u64::MAX);
    assert_eq!(text, "x = -305018446744073709551615");
}

#[test]
fn decimal_agrees_with_the_standard_formatter() {
    let mut value: i64 = 1;
    for _ in 0..63 {
        for v in [value, -value, value - 1, 1 - value, value + 1] {
            assert_eq!(decimal(v), format!("{}", v));
        }
        value = value.wrapping_mul(2);
    }
    for v in -1000..1000i64 {
        assert_eq!(decimal(v), format!("{}", v));
    }
}
