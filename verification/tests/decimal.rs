use crux_core::decimal::to_decimal;

#[test]
fn zero() {
    assert_eq!(to_decimal(0), "0");
}

#[test]
fn single_digits() {
    for value in 0..10 {
        assert_eq!(to_decimal(value), value.to_string());
    }
}

#[test]
fn powers_of_ten_and_their_neighbours() {
    let mut power: i32 = 1;
    for _ in 0..9 {
        power *= 10;
        assert_eq!(to_decimal(power - 1), (power - 1).to_string());
        assert_eq!(to_decimal(power), power.to_string());
        assert_eq!(to_decimal(power + 1), (power + 1).to_string());
        assert_eq!(to_decimal(-power), (-power).to_string());
    }
}

#[test]
fn negative_numbers_have_a_sign() {
    assert_eq!(to_decimal(-1), "-1");
    assert_eq!(to_decimal(-120), "-120");
    assert_eq!(to_decimal(-9), "-9");
}

#[test]
fn the_ends_of_the_range() {
    assert_eq!(to_decimal(i32::MAX), "2147483647");
    assert_eq!(to_decimal(i32::MIN), "-2147483648");
    assert_eq!(to_decimal(i32::MIN + 1), "-2147483647");
}

#[test]
fn many_values_agree_with_std() {
    let mut value: i32 = -1_000_003;
    while value < 1_000_003 {
        assert_eq!(to_decimal(value), value.to_string());
        value += 7919;
    }
}
