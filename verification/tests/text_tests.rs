use rag_pipeline::text::{decimal_of, push_decimal};

#[test]
fn decimal_of_zero_is_one_digit() {
    assert_eq!(decimal_of(0), "0");
}

#[test]
fn decimal_of_single_digits() {
    for (n, text) in [(1usize, "1"), (5, "5"), (9, "9")] {
        assert_eq!(decimal_of(n), text);
    }
}

#[test]
fn decimal_of_longer_numbers() {
    assert_eq!(decimal_of(10), "10");
    assert_eq!(decimal_of(1024), "1024");
    assert_eq!(decimal_of(9_876_543_210), "9876543210");
    assert_eq!(decimal_of(100_000), "100000");
}

#[test]
fn decimal_of_the_largest_number() {
    assert_eq!(decimal_of(usize::MAX), format!("{}", usize::MAX));
}

#[test]
fn push_decimal_appends() {
    let mut text = "size ".to_string();
    push_decimal(&mut text, 128);
    assert_eq!(text, "size 128");
    push_decimal(&mut text, 0);
    assert_eq!(text, "size 1280");
}
