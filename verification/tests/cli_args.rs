use bytes::Bytes;
use mini_redis::cli::{bytes_from_str, duration_from_ms_str};
use std::num::IntErrorKind;
use std::time::Duration;

#[test]
fn duration_in_milliseconds() {
    assert_eq!(duration_from_ms_str("1500").unwrap(), Duration::from_millis(1500));
    assert_eq!(duration_from_ms_str("0").unwrap(), Duration::ZERO);
    assert_eq!(duration_from_ms_str("+7").unwrap(), Duration::from_millis(7));
    assert_eq!(
        duration_from_ms_str("18446744073709551615").unwrap(),
        Duration::from_millis(u64::MAX)
    );
}

#[test]
fn duration_rejects_bad_text() {
    assert!(duration_from_ms_str("").is_err());
    assert!(duration_from_ms_str("+").is_err());
    assert!(duration_from_ms_str("-1").is_err());
    assert!(duration_from_ms_str(" 5").is_err());
    assert!(duration_from_ms_str("5s").is_err());
    assert!(duration_from_ms_str("18446744073709551616").is_err());
}

#[test]
fn bytes_of_text() {
    assert_eq!(bytes_from_str("hello"), Bytes::from("hello"));
    assert_eq!(bytes_from_str(""), Bytes::new());
    assert_eq!(bytes_from_str("é").as_ref(), &[0xc3u8, 0xa9]);
}

#[test]
fn default_port() {
    assert_eq!(mini_redis::DEFAULT_PORT, 6379);
}

#[test]
fn duration_error_kinds() {
    assert_eq!(duration_from_ms_str("").unwrap_err().kind(), &IntErrorKind::Empty);
    for text in ["abc", "-1", "1.5", " 5", "+", "5s"] {
        assert_eq!(duration_from_ms_str(text).unwrap_err().kind(), &IntErrorKind::InvalidDigit);
    }
    assert_eq!(
        duration_from_ms_str("18446744073709551616").unwrap_err().kind(),
        &IntErrorKind::PosOverflow
    );
}

#[test]
fn duration_of_any_number() {
    for n in [0u64, 1, 999, 1_000, 86_400_000, u64::MAX - 1, u64::MAX] {
        let d = duration_from_ms_str(&n.to_string()).unwrap();
        assert_eq!(d, Duration::from_millis(n));
        assert_eq!(d.as_millis(), n as u128);
    }
}
