use catalog_api::decimal::to_decimal;

#[test]
fn zero_is_a_single_digit() {
    assert_eq!(to_decimal(0), "0");
}

#[test]
fn every_digit_has_its_own_character() {
    let written: Vec<String> = (0..10).map(to_decimal).collect();
    assert_eq!(written, vec!["0", "1", "2", "3", "4", "5", "6", "7", "8", "9"]);
}

#[test]
fn digits_come_most_significant_first() {
    assert_eq!(to_decimal(10), "10");
    assert_eq!(to_decimal(42), "42");
    assert_eq!(to_decimal(100), "100");
    assert_eq!(to_decimal(299), "299");
    assert_eq!(to_decimal(1_000_000), "1000000");
    assert_eq!(to_decimal(987_654_321), "987654321");
}

#[test]
fn the_largest_number_is_written_in_full() {
    assert_eq!(to_decimal(u32::MAX), "4294967295");
}

#[test]
fn notation_reads_back_as_the_number() {
    for n in (0..5000u32).chain([65_535, 65_536, 99_999_999, u32::MAX - 1]) {
        let text = to_decimal(n);
        assert_eq!(text.parse::<u32>().ok(), Some(n));
        assert_eq!(text, n.to_string());
    }
}
