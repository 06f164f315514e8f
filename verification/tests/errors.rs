use socks_relay::error::{Error, SocksError};
use socks_relay::text::decimal_text;

#[test]
fn decimal_text_writes_bytes_without_padding() {
    assert_eq!(decimal_text(0), "0");
    assert_eq!(decimal_text(7), "7");
    assert_eq!(decimal_text(10), "10");
    assert_eq!(decimal_text(99), "99");
    assert_eq!(decimal_text(100), "100");
    assert_eq!(decimal_text(105), "105");
    assert_eq!(decimal_text(255), "255");
}

#[test]
fn decimal_text_agrees_with_display_on_every_byte() {
    for n in 0..=255u8 {
        assert_eq!(decimal_text(n), format!("{n}"));
    }
}

#[test]
fn invalid_version_message() {
    let err = Error::InvalidVersion { expected: 5, found: 4 };
    assert_eq!(err.describe(), "invalid protocol version (expected 5, found 4)");
}

#[test]
fn method_not_found_message() {
    assert_eq!(Error::MethodNotFound.describe(), "method not found");
}

#[test]
fn invalid_addr_message_joins_the_expected_types() {
    let err = SocksError::InvalidAddr { expected: vec![1, 3, 4], found: 9 };
    assert_eq!(err.describe(), "invalid addr type (expected 1, 3, 4, found 9)");
    let wide = SocksError::InvalidAddr { expected: vec![10, 200], found: 255 };
    assert_eq!(wide.describe(), "invalid addr type (expected 10, 200, found 255)");
    let single = SocksError::InvalidAddr { expected: vec![4], found: 0 };
    assert_eq!(single.describe(), "invalid addr type (expected 4, found 0)");
    let empty = SocksError::InvalidAddr { expected: Vec::new(), found: 1 };
    assert_eq!(empty.describe(), "invalid addr type (expected , found 1)");
}

#[test]
fn invalid_command_message() {
    let err = SocksError::InvalidCommand { expected: 1, found: 3 };
    assert_eq!(err.describe(), "invalid command (expected 1, found 3)");
}

#[test]
fn nested_request_failure_keeps_its_message() {
    let err = Error::Socks(SocksError::InvalidCommand { expected: 1, found: 2 });
    assert_eq!(err.describe(), "invalid command (expected 1, found 2)");
}

#[test]
fn io_failure_keeps_the_message_of_its_source() {
    let err = Error::Io(std::io::Error::new(std::io::ErrorKind::Other, "connection reset"));
    assert_eq!(err.describe(), "connection reset");
    let inner = SocksError::Io(std::io::Error::new(std::io::ErrorKind::Other, "refused"));
    assert_eq!(inner.describe(), "refused");
}

#[test]
fn utf8_failure_keeps_the_message_of_its_source() {
    let source = String::from_utf8(vec![0x61, 0xff]).unwrap_err();
    let expected = source.to_string();
    assert_eq!(SocksError::Utf8(source).describe(), expected);
}

#[test]
fn errors_convert_from_their_sources() {
    let io = std::io::Error::new(std::io::ErrorKind::Other, "x");
    assert!(matches!(Error::from(io), Error::Io(_)));
    let io = std::io::Error::new(std::io::ErrorKind::Other, "x");
    assert!(matches!(SocksError::from(io), SocksError::Io(_)));
    let utf8 = String::from_utf8(vec![0xff]).unwrap_err();
    assert!(matches!(SocksError::from(utf8), SocksError::Utf8(_)));
    let socks = SocksError::InvalidCommand { expected: 1, found: 2 };
    assert!(matches!(
        Error::from(socks),
        Error::Socks(SocksError::InvalidCommand { expected: 1, found: 2 })
    ));
}
