use relayer::text::decimal_text;

#[test]
fn numbers_are_written_in_decimal() {
    assert_eq!(decimal_text(0), "0");
    assert_eq!(decimal_text(7), "7");
    assert_eq!(decimal_text(10), "10");
    assert_eq!(decimal_text(909), "909");
    assert_eq!(decimal_text(1234567890), "1234567890");
    assert_eq!(decimal_text(90000000000000), "90000000000000");
    assert_eq!(decimal_text(u64::MAX), "18446744073709551615");
}

#[test]
fn different_numbers_are_written_differently() {
    let numbers: [u64; 6] = [0, 1, 10, 11, 100, 110];
    for (i, m) in numbers.iter().enumerate() {
        for (j, n) in numbers.iter().enumerate() {
            assert_eq!(decimal_text(*m) == decimal_text(*n), i == j);
        }
    }
}
