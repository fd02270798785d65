use sol_display::text::{
    decimal_text, fixed2_text, format_date, format_time, push_decimal, push_pad2,
    sol_balance_text,
};

#[test]
fn balance_of_two_and_a_half_sol() {
    assert_eq!(sol_balance_text(2_500_000_000), "2.50");
}

#[test]
fn balance_zero_is_zero_with_two_decimals() {
    assert_eq!(sol_balance_text(0), "0.00");
}

#[test]
fn balance_rounds_half_up() {
    assert_eq!(sol_balance_text(4_999_999), "0.00");
    assert_eq!(sol_balance_text(5_000_000), "0.01");
    assert_eq!(sol_balance_text(1_999_999_999), "2.00");
}

#[test]
fn balance_of_largest_value() {
    assert_eq!(sol_balance_text(u64::MAX), "18446744073.71");
}

#[test]
fn decimal_text_values() {
    assert_eq!(decimal_text(0), "0");
    assert_eq!(decimal_text(7), "7");
    assert_eq!(decimal_text(1_234_567_890), "1234567890");
    assert_eq!(decimal_text(u64::MAX), "18446744073709551615");
}

#[test]
fn fixed2_values() {
    assert_eq!(fixed2_text(1234), "12.34");
    assert_eq!(fixed2_text(5), "0.05");
    assert_eq!(fixed2_text(100), "1.00");
}

#[test]
fn push_helpers_append() {
    let mut s = String::from("x=");
    push_decimal(&mut s, 42);
    push_pad2(&mut s, 3);
    push_pad2(&mut s, 123);
    assert_eq!(s, "x=4203123");
}

#[test]
fn date_and_time_are_zero_padded() {
    assert_eq!(format_date(2024, 3, 7), "2024-03-07");
    assert_eq!(format_date(2024, 12, 31), "2024-12-31");
    assert_eq!(format_time(9, 5, 0), "09:05:00");
    assert_eq!(format_time(23, 59, 59), "23:59:59");
}
