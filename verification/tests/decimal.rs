use lighting::decimal::push_decimal;

fn written(n: usize) -> String {
    let mut out = String::new();
    push_decimal(&mut out, n);
    out
}

#[test]
fn zero_is_written_as_one_digit() {
    assert_eq!(written(0), "0");
}

#[test]
fn numbers_are_written_without_leading_zeros() {
    assert_eq!(written(7), "7");
    assert_eq!(written(9), "9");
    assert_eq!(written(10), "10");
    assert_eq!(written(42), "42");
    assert_eq!(written(100), "100");
    assert_eq!(written(1234567890), "1234567890");
    assert_eq!(written(4294967295), "4294967295");
}

#[test]
fn largest_number_is_written_in_full() {
    assert_eq!(written(usize::MAX), format!("{}", usize::MAX));
}

#[test]
fn digits_are_appended_behind_what_is_there() {
    let mut out = String::from("calculate_lighting");
    push_decimal(&mut out, 305);
    assert_eq!(out, "calculate_lighting305");
}

#[test]
fn different_numbers_are_written_differently() {
    for a in 0..200usize {
        for b in (a + 1)..200usize {
            assert_ne!(written(a), written(b));
        }
    }
}
