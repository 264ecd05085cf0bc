use all_new_db_talks::decimal::{
    decimal_chars, padded_chars, parse_u16_chars, signed_decimal_chars,
};

fn text(v: Vec<char>) -> String {
    v.into_iter().collect()
}

#[test]
fn decimal_has_no_leading_zero() {
    for n in [0u64, 1, 9, 10, 11, 99, 100, 101, 65535, 1_000_000, u64::MAX] {
        assert_eq!(text(decimal_chars(n)), n.to_string());
    }
}

#[test]
fn padding_fills_with_zeros_and_never_cuts() {
    assert_eq!(text(padded_chars(7, 3)), "007");
    assert_eq!(text(padded_chars(0, 2)), "00");
    assert_eq!(text(padded_chars(0, 0)), "0");
    assert_eq!(text(padded_chars(123, 3)), "123");
    assert_eq!(text(padded_chars(1234, 3)), "1234");
    assert_eq!(text(padded_chars(5, 1)), "5");
    for (n, w) in [(42u64, 6usize), (999999, 6), (1000000, 6), (u64::MAX, 25)] {
        assert_eq!(text(padded_chars(n, w)), format!("{:0w$}", n, w = w));
    }
}

#[test]
fn signed_decimal_has_a_minus_for_negatives() {
    for i in [0i64, 1, -1, 10, -10, i64::MAX, i64::MIN, i64::MIN + 1] {
        assert_eq!(text(signed_decimal_chars(i)), i.to_string());
    }
}

#[test]
fn parse_reads_digits_with_optional_plus() {
    let read = |s: &str| parse_u16_chars(&s.chars().collect());
    assert_eq!(read("0"), Some(0));
    assert_eq!(read("+0"), Some(0));
    assert_eq!(read("65535"), Some(65535));
    assert_eq!(read("+65535"), Some(65535));
    assert_eq!(read("0000065535"), Some(65535));
    assert_eq!(read("65536"), None);
    assert_eq!(read("655350"), None);
    assert_eq!(read(""), None);
    assert_eq!(read("+"), None);
    assert_eq!(read("-1"), None);
    assert_eq!(read("1_000"), None);
    assert_eq!(read("12 "), None);
}

#[test]
fn parse_reads_back_every_port() {
    for n in 0..=u16::MAX {
        assert_eq!(parse_u16_chars(&decimal_chars(n as u64)), Some(n));
    }
}
