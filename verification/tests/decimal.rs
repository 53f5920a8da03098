use notifier::decimal::decimal;

#[test]
fn zero_is_one_digit() {
    assert_eq!(decimal(0), "0");
}

#[test]
fn single_digits() {
    let expected = ["0", "1", "2", "3", "4", "5", "6", "7", "8", "9"];
    for (n, text) in expected.iter().enumerate() {
        assert_eq!(decimal(n as i32), *text);
    }
}

#[test]
fn several_digits_most_significant_first() {
    assert_eq!(decimal(10), "10");
    assert_eq!(decimal(5000), "5000");
    assert_eq!(decimal(3000), "3000");
    assert_eq!(decimal(1234567890), "1234567890");
    assert_eq!(decimal(100200), "100200");
}

#[test]
fn negative_numbers_carry_a_minus_sign() {
    assert_eq!(decimal(-1), "-1");
    assert_eq!(decimal(-10), "-10");
    assert_eq!(decimal(-5000), "-5000");
}

#[test]
fn the_ends_of_the_range() {
    assert_eq!(decimal(i32::MAX), "2147483647");
    assert_eq!(decimal(i32::MIN), "-2147483648");
}

#[test]
fn decimal_agrees_with_the_standard_formatting() {
    let mut n: i64 = i32::MIN as i64;
    while n <= i32::MAX as i64 {
        let v = n as i32;
        assert_eq!(decimal(v), format!("{}", v));
        n += 7_654_321;
    }
    for v in -1100..1100 {
        assert_eq!(decimal(v), format!("{}", v));
    }
}
