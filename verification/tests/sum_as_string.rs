use rust_python_lib::decimal::to_decimal;
use rust_python_lib::sum::sum_as_string;
use rust_python_lib::sum::OverflowError;

#[test]
fn zero_plus_zero_is_zero() {
    assert_eq!(sum_as_string(0, 0).unwrap(), "0");
}

#[test]
fn two_plus_two_is_four() {
    assert_eq!(sum_as_string(2, 2).unwrap(), "4");
}

#[test]
fn max_plus_zero_is_max() {
    assert_eq!(sum_as_string(usize::MAX, 0).unwrap(), format!("{}", usize::MAX));
}

#[test]
fn repeated_calls_agree() {
    let first = sum_as_string(41, 1);
    let second = sum_as_string(41, 1);
    assert_eq!(first, second);
    assert_eq!(first.unwrap(), "42");
}

#[test]
fn overflow_is_an_explicit_error() {
    assert_eq!(sum_as_string(usize::MAX, 1), Err(OverflowError));
    assert_eq!(sum_as_string(usize::MAX, usize::MAX), Err(OverflowError));
}

#[test]
fn just_below_overflow_succeeds() {
    assert_eq!(sum_as_string(usize::MAX - 1, 1).unwrap(), format!("{}", usize::MAX));
}

#[test]
fn carries_across_digits() {
    assert_eq!(sum_as_string(999, 1).unwrap(), "1000");
    assert_eq!(sum_as_string(123456, 654321).unwrap(), "777777");
}

#[test]
fn decimal_of_single_digits() {
    assert_eq!(to_decimal(0), "0");
    assert_eq!(to_decimal(7), "7");
    assert_eq!(to_decimal(9), "9");
}

#[test]
fn decimal_keeps_digit_order() {
    assert_eq!(to_decimal(10), "10");
    assert_eq!(to_decimal(905), "905");
    assert_eq!(to_decimal(123456789), "123456789");
}
