use gifer::text::render_decimal;

#[test]
fn zero_is_a_single_digit() {
    assert_eq!(render_decimal(0), "0");
}

#[test]
fn single_digits() {
    assert_eq!(render_decimal(1), "1");
    assert_eq!(render_decimal(7), "7");
    assert_eq!(render_decimal(9), "9");
}

#[test]
fn several_digits_most_significant_first() {
    assert_eq!(render_decimal(10), "10");
    assert_eq!(render_decimal(127), "127");
    assert_eq!(render_decimal(255), "255");
    assert_eq!(render_decimal(1002003), "1002003");
}

#[test]
fn negative_numbers_carry_a_minus_sign() {
    assert_eq!(render_decimal(-1), "-1");
    assert_eq!(render_decimal(-10), "-10");
    assert_eq!(render_decimal(-2048), "-2048");
}

#[test]
fn the_ends_of_the_range() {
    assert_eq!(render_decimal(i32::MAX), "2147483647");
    assert_eq!(render_decimal(i32::MIN), "-2147483648");
}

#[test]
fn agrees_with_the_standard_formatting() {
    let samples: Vec<i32> =
        vec![0, 1, -1, 9, 10, 11, 99, 100, 101, -99, -100, 4096, 65535, -65536, 999999999];
    for value in samples {
        assert_eq!(render_decimal(value), format!("{}", value));
    }
}
