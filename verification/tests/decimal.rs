use manga_epub::decimal::{decimal_len, decimal_string, padded_decimal_string, push_padded_decimal};

#[test]
fn decimal_matches_display() {
    for n in [0u64, 7, 10, 99, 100, 12345, u64::MAX] {
        assert_eq!(decimal_string(n), format!("{}", n));
        assert_eq!(decimal_len(n), format!("{}", n).len());
    }
}

#[test]
fn padded_decimal_matches_zero_padding() {
    for n in [0u64, 5, 42, 999, 1000, 10000, 123456] {
        assert_eq!(padded_decimal_string(n, 4), format!("{:04}", n));
    }
    assert_eq!(padded_decimal_string(3, 0), "3");
    assert_eq!(padded_decimal_string(3, 6), "000003");
}

#[test]
fn padded_decimal_appends() {
    let mut s = String::from("volume-");
    push_padded_decimal(&mut s, 12, 4);
    assert_eq!(s, "volume-0012");
}
