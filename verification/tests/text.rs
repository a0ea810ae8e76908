use basket_validation::text::decimal_text;

#[test]
fn decimal_text_of_zero() {
    assert_eq!(decimal_text(0), "0");
}

#[test]
fn decimal_text_of_single_digits() {
    assert_eq!(decimal_text(1), "1");
    assert_eq!(decimal_text(7), "7");
    assert_eq!(decimal_text(9), "9");
}

#[test]
fn decimal_text_of_several_digits() {
    assert_eq!(decimal_text(10), "10");
    assert_eq!(decimal_text(42), "42");
    assert_eq!(decimal_text(100), "100");
    assert_eq!(decimal_text(1_000_000), "1000000");
    assert_eq!(decimal_text(1234567890), "1234567890");
}

#[test]
fn decimal_text_of_negative_numbers() {
    assert_eq!(decimal_text(-1), "-1");
    assert_eq!(decimal_text(-3), "-3");
    assert_eq!(decimal_text(-10), "-10");
    assert_eq!(decimal_text(-2147483648), "-2147483648");
}

#[test]
fn decimal_text_at_the_bounds_of_the_fields() {
    assert_eq!(decimal_text(u32::MAX as i64), "4294967295");
    assert_eq!(decimal_text(i32::MAX as i64), "2147483647");
    assert_eq!(decimal_text(i32::MIN as i64), "-2147483648");
}

#[test]
fn decimal_text_at_the_bounds_of_its_argument() {
    assert_eq!(decimal_text(i64::MAX), "9223372036854775807");
    assert_eq!(decimal_text(i64::MIN), "-9223372036854775808");
}

#[test]
fn decimal_text_agrees_with_the_standard_formatting() {
    let mut value: i64 = -2500;
    while value <= 2500 {
        assert_eq!(decimal_text(value), format!("{}", value));
        value += 1;
    }
    let far: [i64; 8] = [
        i64::MIN,
        i64::MIN + 1,
        -4294967296,
        -999_999_999,
        999_999_999,
        4294967296,
        i64::MAX - 1,
        i64::MAX,
    ];
    for value in far {
        assert_eq!(decimal_text(value), format!("{}", value));
    }
}

#[test]
fn decimal_text_reads_back_as_the_same_number() {
    let values: [i64; 9] = [i64::MIN, -4294967295, -42, -1, 0, 1, 42, 4294967295, i64::MAX];
    for value in values {
        let read: i64 = decimal_text(value).parse().unwrap();
        assert_eq!(read, value);
    }
}
