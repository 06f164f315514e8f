use socks_relay::error::{Error, SocksError};
use socks_relay::wire::{
    check_address_type, check_command, check_version, decode_domain, decode_octets, decode_port,
    encode_method_reply, encode_reply, reply_code, select_method, NegotiationMethod, ReplyCode,
};

#[test]
fn method_bytes_are_the_wire_values() {
    assert_eq!(NegotiationMethod::NoAuth.byte(), 0x00);
    assert_eq!(NegotiationMethod::UserPass.byte(), 0x02);
    assert_eq!(NegotiationMethod::NoAcceptableMethod.byte(), 0xff);
}

#[test]
fn reply_code_bytes_are_the_wire_values() {
    assert_eq!(ReplyCode::Success.byte(), 0x00);
    assert_eq!(ReplyCode::GeneralFailure.byte(), 0x01);
    assert_eq!(ReplyCode::CommandNotSupported.byte(), 0x07);
    assert_eq!(ReplyCode::AddressTypeNotSupported.byte(), 0x08);
}

#[test]
fn select_method_takes_no_auth() {
    assert_eq!(select_method(&[0x00]), NegotiationMethod::NoAuth);
}

#[test]
fn select_method_takes_userpass() {
    assert_eq!(select_method(&[0x02]), NegotiationMethod::UserPass);
}

#[test]
fn select_method_goes_by_list_order_not_preference() {
    assert_eq!(select_method(&[0x02, 0x00]), NegotiationMethod::UserPass);
    assert_eq!(select_method(&[0x00, 0x02]), NegotiationMethod::NoAuth);
    assert_eq!(select_method(&[0x01, 0x03, 0x02, 0x00]), NegotiationMethod::UserPass);
    assert_eq!(select_method(&[0x80, 0x00, 0x02]), NegotiationMethod::NoAuth);
}

#[test]
fn select_method_finds_nothing_acceptable() {
    assert_eq!(select_method(&[]), NegotiationMethod::NoAcceptableMethod);
    assert_eq!(select_method(&[0x01, 0x03, 0xff]), NegotiationMethod::NoAcceptableMethod);
}

#[test]
fn select_method_userpass_without_no_auth() {
    assert_eq!(select_method(&[0x01, 0x02, 0x05]), NegotiationMethod::UserPass);
}

#[test]
fn method_reply_is_version_then_method() {
    assert_eq!(encode_method_reply(NegotiationMethod::NoAuth), vec![0x05, 0x00]);
    assert_eq!(encode_method_reply(NegotiationMethod::UserPass), vec![0x05, 0x02]);
    assert_eq!(encode_method_reply(NegotiationMethod::NoAcceptableMethod), vec![0x05, 0xff]);
}

#[test]
fn reply_frame_is_ten_bytes_with_a_zero_ipv4_address() {
    assert_eq!(encode_reply(ReplyCode::Success), vec![0x05, 0x00, 0x00, 0x01, 0, 0, 0, 0, 0, 0]);
    assert_eq!(
        encode_reply(ReplyCode::GeneralFailure),
        vec![0x05, 0x01, 0x00, 0x01, 0, 0, 0, 0, 0, 0]
    );
    assert_eq!(
        encode_reply(ReplyCode::CommandNotSupported),
        vec![0x05, 0x07, 0x00, 0x01, 0, 0, 0, 0, 0, 0]
    );
    assert_eq!(
        encode_reply(ReplyCode::AddressTypeNotSupported),
        vec![0x05, 0x08, 0x00, 0x01, 0, 0, 0, 0, 0, 0]
    );
}

#[test]
fn reply_code_follows_the_failure() {
    let addr = SocksError::InvalidAddr { expected: vec![1, 3, 4], found: 9 };
    assert_eq!(reply_code(&addr), ReplyCode::AddressTypeNotSupported);
    let command = SocksError::InvalidCommand { expected: 1, found: 2 };
    assert_eq!(reply_code(&command), ReplyCode::CommandNotSupported);
    let io = SocksError::Io(std::io::Error::new(std::io::ErrorKind::Other, "refused"));
    assert_eq!(reply_code(&io), ReplyCode::GeneralFailure);
    let utf8 = SocksError::Utf8(String::from_utf8(vec![0xff]).unwrap_err());
    assert_eq!(reply_code(&utf8), ReplyCode::GeneralFailure);
}

#[test]
fn check_version_accepts_five_only() {
    assert!(check_version(5).is_ok());
    assert!(matches!(check_version(4), Err(Error::InvalidVersion { expected: 5, found: 4 })));
    assert!(matches!(check_version(0), Err(Error::InvalidVersion { expected: 5, found: 0 })));
}

#[test]
fn check_command_accepts_connect_only() {
    assert!(check_command(1).is_ok());
    assert!(matches!(check_command(2), Err(SocksError::InvalidCommand { expected: 1, found: 2 })));
    assert!(matches!(check_command(3), Err(SocksError::InvalidCommand { expected: 1, found: 3 })));
}

#[test]
fn check_address_type_accepts_the_three_known_types() {
    assert!(check_address_type(1).is_ok());
    assert!(check_address_type(3).is_ok());
    assert!(check_address_type(4).is_ok());
    match check_address_type(2) {
        Err(SocksError::InvalidAddr { expected, found }) => {
            assert_eq!(expected, vec![1, 3, 4]);
            assert_eq!(found, 2);
        }
        other => panic!("unexpected {other:?}"),
    }
    assert!(check_address_type(0).is_err());
    assert!(check_address_type(0xff).is_err());
}

#[test]
fn decode_port_is_big_endian() {
    assert_eq!(decode_port(&[0x1f, 0x90]), 8080);
    assert_eq!(decode_port(&[0x00, 0x50]), 80);
    assert_eq!(decode_port(&[0x01, 0x00]), 256);
    assert_eq!(decode_port(&[0xff, 0xff]), 65535);
    assert_eq!(decode_port(&[0x00, 0x00]), 0);
}

#[test]
fn decode_octets_copies_the_address() {
    let v4: [u8; 4] = decode_octets(&[127, 0, 0, 1]);
    assert_eq!(v4, [127, 0, 0, 1]);
    let bytes: Vec<u8> = (1..=16).collect();
    let v6: [u8; 16] = decode_octets(&bytes);
    assert_eq!(v6.to_vec(), bytes);
}

#[test]
fn decode_domain_reads_utf8() {
    assert_eq!(decode_domain(b"example.com".to_vec()).unwrap(), "example.com");
    assert_eq!(decode_domain(vec![0xc3, 0xa9]).unwrap(), "\u{e9}");
    assert_eq!(decode_domain(Vec::new()).unwrap(), "");
}

#[test]
fn decode_domain_refuses_malformed_utf8() {
    assert!(matches!(decode_domain(vec![0x66, 0xff, 0x6f]), Err(SocksError::Utf8(_))));
    assert!(matches!(decode_domain(vec![0xc3]), Err(SocksError::Utf8(_))));
}
