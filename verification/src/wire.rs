//! The byte-level vocabulary of the protocol: the values that travel in the
//! negotiation and request messages, and the frames sent back.

use crate::error::{Error, SocksError};
use vstd::prelude::*;
use vstd::utf8::{decode_utf8, valid_utf8};

verus! {

/// The protocol version that every message starts with.
pub const SOCKS_VERSION: u8 = 0x05;

/// Wire value of the method "no authentication".
pub const NO_AUTH_METHOD: u8 = 0x00;

/// Wire value of the method "user name and password".
pub const AUTH_METHOD: u8 = 0x02;

/// Wire value that tells the client that none of its methods is acceptable.
pub const NO_METHOD: u8 = 0xff;

/// Wire value of the CONNECT command.
pub const CONNECT_COMMAND: u8 = 0x01;

/// Address type of an IPv4 literal.
pub const IPV4_TYPE: u8 = 0x01;

/// Address type of a domain name.
pub const DOMAIN_TYPE: u8 = 0x03;

/// Address type of an IPv6 literal.
pub const IPV6_TYPE: u8 = 0x04;

/// The method chosen for a connection.
#[derive(Clone, Copy, Debug, PartialEq, Eq, Structural)]
pub enum NegotiationMethod {
    NoAuth,
    UserPass,
    NoAcceptableMethod,
}

impl NegotiationMethod {
    /// The byte that stands for the method on the wire.
    pub open spec fn wire(self) -> u8 {
        match self {
            NegotiationMethod::NoAuth => NO_AUTH_METHOD,
            NegotiationMethod::UserPass => AUTH_METHOD,
            NegotiationMethod::NoAcceptableMethod => NO_METHOD,
        }
    }

    /// The byte that stands for the method on the wire.
    pub fn byte(self) -> (b: u8)
        ensures
            b == self.wire(),
    {
        match self {
            NegotiationMethod::NoAuth => NO_AUTH_METHOD,
            NegotiationMethod::UserPass => AUTH_METHOD,
            NegotiationMethod::NoAcceptableMethod => NO_METHOD,
        }
    }
}

/// The outcome reported to the client in the reply frame.
#[derive(Clone, Copy, Debug, PartialEq, Eq, Structural)]
pub enum ReplyCode {
    Success,
    GeneralFailure,
    CommandNotSupported,
    AddressTypeNotSupported,
}

impl ReplyCode {
    /// The byte that stands for the code on the wire.
    pub open spec fn wire(self) -> u8 {
        match self {
            ReplyCode::Success => 0x00,
            ReplyCode::GeneralFailure => 0x01,
            ReplyCode::CommandNotSupported => 0x07,
            ReplyCode::AddressTypeNotSupported => 0x08,
        }
    }

    /// The byte that stands for the code on the wire.
    pub fn byte(self) -> (b: u8)
        ensures
            b == self.wire(),
    {
        match self {
            ReplyCode::Success => 0x00,
            ReplyCode::GeneralFailure => 0x01,
            ReplyCode::CommandNotSupported => 0x07,
            ReplyCode::AddressTypeNotSupported => 0x08,
        }
    }
}

/// Where a client asks to be connected.
#[derive(Debug)]
#[allow(inconsistent_fields)]
pub enum Destination {
    /// An IPv4 literal, octets in network order.
    V4 { octets: [u8; 4], port: u16 },
    /// An IPv6 literal, octets in network order.
    V6 { octets: [u8; 16], port: u16 },
    /// A name still to be resolved.
    Domain { name: String, port: u16 },
}

/// The mathematical value of a [`Destination`].
#[allow(inconsistent_fields)]
pub enum DestinationView {
    V4 { octets: Seq<u8>, port: u16 },
    V6 { octets: Seq<u8>, port: u16 },
    Domain { name: Seq<char>, port: u16 },
}

impl View for Destination {
    type V = DestinationView;

    open spec fn view(&self) -> DestinationView {
        match *self {
            Destination::V4 { octets, port } => DestinationView::V4 { octets: octets@, port },
            Destination::V6 { octets, port } => DestinationView::V6 { octets: octets@, port },
            Destination::Domain { name, port } => DestinationView::Domain { name: name@, port },
        }
    }
}

/// Whether a method byte is one that the relay recognises in an offer.
pub open spec fn is_known_method(b: u8) -> bool {
    b == NO_AUTH_METHOD || b == AUTH_METHOD
}

/// The method that an offer selects: the first recognised entry in list order,
/// or `NoAcceptableMethod` when there is none.
pub open spec fn selected_method(offered: Seq<u8>) -> NegotiationMethod
    decreases offered.len(),
{
    if offered.len() == 0 {
        NegotiationMethod::NoAcceptableMethod
    } else if offered[0] == NO_AUTH_METHOD {
        NegotiationMethod::NoAuth
    } else if offered[0] == AUTH_METHOD {
        NegotiationMethod::UserPass
    } else {
        selected_method(offered.drop_first())
    }
}

/// Picks the method for a connection from the client's offer.
pub fn select_method(offered: &[u8]) -> (m: NegotiationMethod)
    ensures
        m == selected_method(offered@),
{
    let mut i: usize = 0;
    assert(offered@.skip(0) =~= offered@);
    while i < offered.len()
        invariant
            i <= offered@.len(),
            selected_method(offered@) == selected_method(offered@.skip(i as int)),
        decreases offered@.len() - i,
    {
        let b: u8 = offered[i];
        proof {
            assert(offered@.skip(i as int)[0] == b);
            assert(offered@.skip(i as int).drop_first() =~= offered@.skip(i as int + 1));
        }
        if b == NO_AUTH_METHOD {
            return NegotiationMethod::NoAuth;
        }
        if b == AUTH_METHOD {
            return NegotiationMethod::UserPass;
        }
        i += 1;
    }
    NegotiationMethod::NoAcceptableMethod
}

/// An offer selects a recognised method exactly when it holds one, and the
/// selected method is then the first recognised entry.
pub proof fn selected_method_is_first_known(offered: Seq<u8>)
    ensures
        selected_method(offered) == NegotiationMethod::NoAcceptableMethod <==> forall|i: int|
            0 <= i < offered.len() ==> !is_known_method(#[trigger] offered[i]),
        selected_method(offered) != NegotiationMethod::NoAcceptableMethod ==> exists|i: int|
            0 <= i < offered.len() && #[trigger] offered[i] == selected_method(offered).wire()
                && forall|j: int| 0 <= j < i ==> !is_known_method(#[trigger] offered[j]),
    decreases offered.len(),
{
    if offered.len() > 0 {
        let rest = offered.drop_first();
        selected_method_is_first_known(rest);
        assert forall|i: int| 0 <= i < rest.len() implies rest[i] == offered[i + 1] by {}
        if is_known_method(offered[0]) {
            assert(offered[0] == selected_method(offered).wire());
        } else {
            assert(selected_method(offered) == selected_method(rest));
            if selected_method(rest) != NegotiationMethod::NoAcceptableMethod {
                let k = choose|i: int|
                    0 <= i < rest.len() && #[trigger] rest[i] == selected_method(rest).wire()
                        && forall|j: int| 0 <= j < i ==> !is_known_method(#[trigger] rest[j]);
                assert(offered[k + 1] == selected_method(offered).wire());
                assert forall|j: int| 0 <= j < k + 1 implies !is_known_method(
                    #[trigger] offered[j],
                ) by {
                    if j > 0 {
                        assert(rest[j - 1] == offered[j]);
                    }
                }
            } else {
                assert forall|i: int| 0 <= i < offered.len() implies !is_known_method(
                    #[trigger] offered[i],
                ) by {
                    if i > 0 {
                        assert(rest[i - 1] == offered[i]);
                    }
                }
            }
        }
    }
}

/// An offer that holds the user-name-and-password method and not the
/// no-authentication method selects user name and password.
pub proof fn offer_with_only_userpass_selects_it(offered: Seq<u8>)
    requires
        offered.contains(AUTH_METHOD),
        !offered.contains(NO_AUTH_METHOD),
    ensures
        selected_method(offered) == NegotiationMethod::UserPass,
    decreases offered.len(),
{
    if offered[0] != AUTH_METHOD {
        let rest = offered.drop_first();
        let k = choose|i: int| 0 <= i < offered.len() && offered[i] == AUTH_METHOD;
        assert(rest[k - 1] == AUTH_METHOD);
        assert forall|i: int| 0 <= i < rest.len() implies rest[i] != NO_AUTH_METHOD by {
            assert(offered[i + 1] == rest[i]);
        }
        offer_with_only_userpass_selects_it(rest);
    }
}

/// The two bytes that answer a method offer.
pub open spec fn method_reply(method: NegotiationMethod) -> Seq<u8> {
    seq![SOCKS_VERSION, method.wire()]
}

/// Encodes the answer to a method offer.
pub fn encode_method_reply(method: NegotiationMethod) -> (frame: Vec<u8>)
    ensures
        frame@ == method_reply(method),
{
    let mut frame: Vec<u8> = Vec::new();
    frame.push(SOCKS_VERSION);
    frame.push(method.byte());
    assert(frame@ =~= method_reply(method));
    frame
}

/// The ten bytes of a reply frame: version, code, a reserved zero, the IPv4
/// address type, and an all-zero address and port.
pub open spec fn reply_frame(code: ReplyCode) -> Seq<u8> {
    seq![SOCKS_VERSION, code.wire(), 0u8, IPV4_TYPE, 0u8, 0u8, 0u8, 0u8, 0u8, 0u8]
}

/// Encodes the reply frame for an outcome.
pub fn encode_reply(code: ReplyCode) -> (frame: Vec<u8>)
    ensures
        frame@ == reply_frame(code),
{
    let mut frame: Vec<u8> = Vec::new();
    frame.push(SOCKS_VERSION);
    frame.push(code.byte());
    frame.push(0u8);
    frame.push(IPV4_TYPE);
    let mut i: usize = 0;
    while i < 6
        invariant
            i <= 6,
            frame@.len() == 4 + i,
            frame@.subrange(0, 4) == seq![SOCKS_VERSION, code.wire(), 0u8, IPV4_TYPE],
            forall|j: int| 4 <= j < 4 + i ==> frame@[j] == 0u8,
        decreases 6 - i,
    {
        let ghost before = frame@;
        frame.push(0u8);
        assert(frame@.subrange(0, 4) =~= before.subrange(0, 4));
        i += 1;
    }
    proof {
        let head = frame@.subrange(0, 4);
        assert forall|j: int| 0 <= j < 4 implies frame@[j] == head[j] by {}
        assert(frame@ =~= reply_frame(code));
    }
    frame
}

/// The reply code that a failed request is answered with.
pub open spec fn reply_code_of(err: crate::error::SocksErrorView) -> ReplyCode {
    match err {
        crate::error::SocksErrorView::InvalidAddr { .. } => ReplyCode::AddressTypeNotSupported,
        crate::error::SocksErrorView::InvalidCommand { .. } => ReplyCode::CommandNotSupported,
        _ => ReplyCode::GeneralFailure,
    }
}

/// Maps a failed request to the reply code sent to the client.
pub fn reply_code(err: &SocksError) -> (code: ReplyCode)
    ensures
        code == reply_code_of(err@),
{
    match err {
        SocksError::InvalidAddr { .. } => ReplyCode::AddressTypeNotSupported,
        SocksError::InvalidCommand { .. } => ReplyCode::CommandNotSupported,
        _ => ReplyCode::GeneralFailure,
    }
}

/// Accepts the protocol version of a message, or says which one was found.
pub fn check_version(found: u8) -> (r: Result<(), Error>)
    ensures
        found == SOCKS_VERSION <==> r is Ok,
        r matches Err(e) ==> e@ == (crate::error::ErrorView::InvalidVersion {
            expected: SOCKS_VERSION,
            found,
        }),
{
    if found != SOCKS_VERSION {
        Err(Error::InvalidVersion { expected: SOCKS_VERSION, found })
    } else {
        Ok(())
    }
}

/// Accepts the command of a request, or says which one was found.
pub fn check_command(found: u8) -> (r: Result<(), SocksError>)
    ensures
        found == CONNECT_COMMAND <==> r is Ok,
        r matches Err(e) ==> e@ == (crate::error::SocksErrorView::InvalidCommand {
            expected: CONNECT_COMMAND,
            found,
        }),
{
    if found != CONNECT_COMMAND {
        Err(SocksError::InvalidCommand { expected: CONNECT_COMMAND, found })
    } else {
        Ok(())
    }
}

/// The address types that a request may name, in the order they are reported.
pub open spec fn known_address_types() -> Seq<u8> {
    seq![IPV4_TYPE, DOMAIN_TYPE, IPV6_TYPE]
}

/// Accepts the address type of a request, or says which one was found.
pub fn check_address_type(found: u8) -> (r: Result<(), SocksError>)
    ensures
        known_address_types().contains(found) <==> r is Ok,
        r matches Err(e) ==> e@ == (crate::error::SocksErrorView::InvalidAddr {
            expected: known_address_types(),
            found,
        }),
{
    proof {
        assert(known_address_types()[0] == IPV4_TYPE);
        assert(known_address_types()[1] == DOMAIN_TYPE);
        assert(known_address_types()[2] == IPV6_TYPE);
    }
    if found == IPV4_TYPE || found == DOMAIN_TYPE || found == IPV6_TYPE {
        Ok(())
    } else {
        let mut expected: Vec<u8> = Vec::new();
        expected.push(IPV4_TYPE);
        expected.push(DOMAIN_TYPE);
        expected.push(IPV6_TYPE);
        assert(expected@ =~= known_address_types());
        Err(SocksError::InvalidAddr { expected, found })
    }
}

/// The port that two bytes in network order stand for.
pub open spec fn port_of(bytes: Seq<u8>) -> u16
    recommends
        bytes.len() == 2,
{
    (bytes[0] as int * 256 + bytes[1] as int) as u16
}

/// Reads a port from two bytes in network order.
pub fn decode_port(bytes: &[u8]) -> (port: u16)
    requires
        bytes@.len() == 2,
    ensures
        port == port_of(bytes@),
        port as int == bytes@[0] as int * 256 + bytes@[1] as int,
{
    let hi: u16 = bytes[0] as u16;
    let lo: u16 = bytes[1] as u16;
    hi * 256 + lo
}

/// Copies the octets of an address out of a message.
pub fn decode_octets<const N: usize>(bytes: &[u8]) -> (octets: [u8; N])
    requires
        bytes@.len() == N,
    ensures
        octets@ == bytes@,
{
    let mut octets: [u8; N] = [0u8; N];
    let mut i: usize = 0;
    while i < N
        invariant
            i <= N,
            bytes@.len() == N,
            forall|j: int| 0 <= j < i ==> octets@[j] == bytes@[j],
        decreases N - i,
    {
        octets[i] = bytes[i];
        i += 1;
    }
    assert(octets@ =~= bytes@);
    octets
}

/// `String::from_utf8`: succeeds exactly on well-formed UTF-8 and then yields
/// the text that the bytes encode.
#[verifier::external_body]
fn string_from_utf8(bytes: Vec<u8>) -> (r: Result<String, std::string::FromUtf8Error>)
    ensures
        r is Ok <==> valid_utf8(bytes@),
        r matches Ok(s) ==> s@ == decode_utf8(bytes@),
{
    String::from_utf8(bytes)
}

/// Reads a domain name from the bytes of a request.
pub fn decode_domain(bytes: Vec<u8>) -> (r: Result<String, SocksError>)
    ensures
        r is Ok <==> valid_utf8(bytes@),
        r matches Ok(name) ==> name@ == decode_utf8(bytes@),
        r matches Err(e) ==> e@ == crate::error::SocksErrorView::Utf8,
{
    match string_from_utf8(bytes) {
        Ok(name) => Ok(name),
        Err(err) => Err(SocksError::Utf8(err)),
    }
}

} // verus!
