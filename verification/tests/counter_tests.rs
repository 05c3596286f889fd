use token_metadata::counter::{decimal_text, SequentialCounter};

#[test]
fn decimal_text_has_no_padding() {
    assert_eq!(decimal_text(0), "0");
    assert_eq!(decimal_text(7), "7");
    assert_eq!(decimal_text(9), "9");
    assert_eq!(decimal_text(10), "10");
    assert_eq!(decimal_text(99), "99");
    assert_eq!(decimal_text(100), "100");
    assert_eq!(decimal_text(1234567890), "1234567890");
    assert_eq!(decimal_text(usize::MAX), usize::MAX.to_string());
}

#[test]
fn counter_starts_at_one() {
    let counter = SequentialCounter::new();
    assert_eq!(counter.current(), 1);
    assert_eq!(counter.produced(), 0);
    assert_eq!(counter.file_name(), "1");
}

#[test]
fn counter_advances_by_one() {
    let mut counter = SequentialCounter::new();
    for expected in 2..=12 {
        assert!(counter.advance());
        assert_eq!(counter.current(), expected);
        assert_eq!(counter.produced(), expected - 1);
        assert_eq!(counter.file_name(), expected.to_string());
    }
}
