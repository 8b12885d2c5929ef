use electric_oxen::text::append_decimal;
use electric_oxen::text::decimal_string;

#[test]
fn zero_is_a_single_digit() {
    assert_eq!(decimal_string(0), "0");
}

#[test]
fn single_digits_have_no_leading_zero() {
    for n in 0..10u32 {
        assert_eq!(decimal_string(n), n.to_string());
    }
}

#[test]
fn numbers_are_written_most_significant_digit_first() {
    assert_eq!(decimal_string(10), "10");
    assert_eq!(decimal_string(50000), "50000");
    assert_eq!(decimal_string(1696), "1696");
    assert_eq!(decimal_string(1000000007), "1000000007");
}

#[test]
fn the_largest_number_is_written_in_full() {
    assert_eq!(decimal_string(u32::MAX), "4294967295");
}

#[test]
fn appending_keeps_what_was_there() {
    let mut out = String::from("--frame=");
    append_decimal(&mut out, 41);
    assert_eq!(out, "--frame=41");
    append_decimal(&mut out, 0);
    assert_eq!(out, "--frame=410");
}

#[test]
fn decimal_agrees_with_the_standard_notation_on_a_sweep() {
    let mut n: u32 = 1;
    while n < u32::MAX / 7 {
        assert_eq!(decimal_string(n), n.to_string());
        assert_eq!(decimal_string(n - 1), (n - 1).to_string());
        n = n * 7 + 3;
    }
}
