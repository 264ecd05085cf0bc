use all_new_db_talks::async_db::AsyncDb;
use all_new_db_talks::introspect::DbUtil;
use all_new_db_talks::value::SqlValue;

#[test]
fn null_is_written_as_null() {
    assert_eq!(SqlValue::NULL.render(), "NULL");
}

#[test]
fn bytes_are_decoded_as_utf8() {
    assert_eq!(SqlValue::Bytes(b"hello".to_vec()).render(), "hello");
    assert_eq!(SqlValue::Bytes("Zo\u{eb} \u{1f600}".as_bytes().to_vec()).render(), "Zo\u{eb} \u{1f600}");
    assert_eq!(SqlValue::Bytes(Vec::new()).render(), "");
}

#[test]
fn invalid_bytes_are_replaced() {
    assert_eq!(SqlValue::Bytes(vec![b'a', 0xff, b'b']).render(), "a\u{fffd}b");
    assert_eq!(SqlValue::Bytes(vec![0xe2, 0x82]).render(), "\u{fffd}");
}

#[test]
fn integers_are_written_in_decimal() {
    assert_eq!(SqlValue::Int(0).render(), "0");
    assert_eq!(SqlValue::Int(-42).render(), "-42");
    assert_eq!(SqlValue::Int(i64::MAX).render(), "9223372036854775807");
    assert_eq!(SqlValue::Int(i64::MIN).render(), "-9223372036854775808");
    assert_eq!(SqlValue::UInt(0).render(), "0");
    assert_eq!(SqlValue::UInt(10).render(), "10");
    assert_eq!(SqlValue::UInt(u64::MAX).render(), "18446744073709551615");
}

#[test]
fn reals_keep_their_default_text() {
    assert_eq!(SqlValue::Float(1.5f32.to_string()).render(), "1.5");
    assert_eq!(SqlValue::Double(0.1f64.to_string()).render(), "0.1");
    assert_eq!(SqlValue::Double(f64::NAN.to_string()).render(), "NaN");
}

#[test]
fn date_is_zero_padded() {
    assert_eq!(SqlValue::Date(2024, 3, 7, 9, 5, 1, 42).render(), "2024-03-07 09:05:01.000042");
    assert_eq!(SqlValue::Date(0, 0, 0, 0, 0, 0, 0).render(), "0000-00-00 00:00:00.000000");
    assert_eq!(
        SqlValue::Date(65535, 255, 255, 255, 255, 255, 4294967295).render(),
        "65535-255-255 255:255:255.4294967295"
    );
}

#[test]
fn negative_interval_counts_days_into_hours() {
    assert_eq!(SqlValue::Time(true, 1, 2, 3, 4, 500000).render(), "-026:03:04.500000");
}

#[test]
fn positive_interval_has_no_sign() {
    assert_eq!(SqlValue::Time(false, 0, 0, 0, 0, 0).render(), "000:00:00.000000");
    assert_eq!(SqlValue::Time(false, 34, 22, 59, 59, 999999).render(), "838:59:59.999999");
    assert_eq!(SqlValue::Time(false, 100, 0, 0, 0, 1).render(), "2400:00:00.000001");
}

#[test]
fn interval_hours_do_not_wrap() {
    assert_eq!(
        SqlValue::Time(true, u32::MAX, 255, 0, 0, 0).render(),
        format!("-{}:00:00.000000", u32::MAX as u64 * 24 + 255)
    );
}

#[test]
fn unknown_kind_has_a_placeholder() {
    assert_eq!(SqlValue::Unknown.render(), "[unsupported type]");
}

#[test]
fn same_value_gives_same_text() {
    let make = || {
        vec![
            SqlValue::NULL,
            SqlValue::Bytes(vec![0xc3, 0x28, b'x']),
            SqlValue::Int(-7),
            SqlValue::UInt(7),
            SqlValue::Float("2.5".to_string()),
            SqlValue::Double("1e300".to_string()),
            SqlValue::Date(1999, 12, 31, 23, 59, 59, 999999),
            SqlValue::Time(true, 2, 3, 4, 5, 6),
            SqlValue::Unknown,
        ]
    };
    let first: Vec<String> = make().iter().map(|v| v.render()).collect();
    let second: Vec<String> = make().iter().map(|v| v.render()).collect();
    assert_eq!(first, second);
    assert_eq!(first.len(), 9);
}

#[test]
fn both_handles_write_values_alike() {
    let v = SqlValue::Time(true, 1, 2, 3, 4, 500000);
    assert_eq!(AsyncDb::value_to_string(&v), "-026:03:04.500000");
    assert_eq!(DbUtil::value_to_string(&v), "-026:03:04.500000");
}
