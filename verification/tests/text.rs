use work_sleep::text::{append_decimal, decimal, parse_quantity};

#[test]
fn decimal_of_small_numbers() {
    assert_eq!(decimal(0), "0");
    assert_eq!(decimal(7), "7");
    assert_eq!(decimal(10), "10");
    assert_eq!(decimal(-1), "-1");
    assert_eq!(decimal(1_000_000), "1000000");
    assert_eq!(decimal(-90_210), "-90210");
}

#[test]
fn decimal_of_the_limits() {
    assert_eq!(decimal(i64::MAX), "9223372036854775807");
    assert_eq!(decimal(i64::MIN), "-9223372036854775808");
}

#[test]
fn decimal_is_as_the_standard_library_writes_it() {
    for n in [0, 1, 9, 10, 11, 99, 100, 101, 12_345, -5, -10, -99, -100, i64::MAX, i64::MIN] {
        assert_eq!(decimal(n), n.to_string());
    }
}

#[test]
fn append_decimal_keeps_what_is_there() {
    let mut out = "n = ".to_owned();
    append_decimal(&mut out, -42);
    append_decimal(&mut out, 0);
    assert_eq!(out, "n = -420");
}

#[test]
fn quantity_reads_back_what_decimal_wrote() {
    for n in [0, 2, 10, 500, -3, i64::MAX, i64::MIN] {
        assert_eq!(parse_quantity(&decimal(n)), n);
    }
}
