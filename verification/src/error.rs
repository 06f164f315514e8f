//! The error taxonomy of a relayed connection.

use crate::text::{decimal, decimal_text, join_decimal, joined};
use vstd::prelude::*;
use vstd::string::StringExecFns;

verus! {

/// `std::io::Error`, carried through unchanged; nothing inside it is visible to proofs.
#[verifier::external_type_specification]
#[verifier::external_body]
pub struct ExIoError(std::io::Error);

/// `std::string::FromUtf8Error`, carried through unchanged; nothing inside it is
/// visible to proofs.
#[verifier::external_type_specification]
#[verifier::external_body]
pub struct ExFromUtf8Error(std::string::FromUtf8Error);

/// A failure while serving the CONNECT request of one client.
#[derive(Debug)]
#[allow(inconsistent_fields)]
pub enum SocksError {
    /// The request named an address type that is not one of `expected`.
    InvalidAddr { expected: Vec<u8>, found: u8 },
    /// The request named a command other than `expected`.
    InvalidCommand { expected: u8, found: u8 },
    /// Reading the request, resolving the destination or connecting to it failed.
    Io(std::io::Error),
    /// The domain name of the request was not UTF-8.
    Utf8(std::string::FromUtf8Error),
}

/// The mathematical value of a [`SocksError`]. The payload of `Utf8` is left out:
/// it only serves diagnostics.
#[allow(inconsistent_fields)]
pub enum SocksErrorView {
    InvalidAddr { expected: Seq<u8>, found: u8 },
    InvalidCommand { expected: u8, found: u8 },
    Io(std::io::Error),
    Utf8,
}

impl View for SocksError {
    type V = SocksErrorView;

    open spec fn view(&self) -> SocksErrorView {
        match *self {
            SocksError::InvalidAddr { expected, found } => SocksErrorView::InvalidAddr {
                expected: expected@,
                found,
            },
            SocksError::InvalidCommand { expected, found } => SocksErrorView::InvalidCommand {
                expected,
                found,
            },
            SocksError::Io(err) => SocksErrorView::Io(err),
            SocksError::Utf8(_) => SocksErrorView::Utf8,
        }
    }
}

/// A failure that ends a client connection.
#[derive(Debug)]
pub enum Error {
    /// A message carried a protocol version other than `expected`.
    InvalidVersion { expected: u8, found: u8 },
    /// The transport to the client failed.
    Io(std::io::Error),
    /// The client offered no method that this relay serves.
    MethodNotFound,
    /// The CONNECT request could not be served.
    Socks(SocksError),
}

/// The mathematical value of an [`Error`].
pub enum ErrorView {
    InvalidVersion { expected: u8, found: u8 },
    Io(std::io::Error),
    MethodNotFound,
    Socks(SocksErrorView),
}

impl View for Error {
    type V = ErrorView;

    open spec fn view(&self) -> ErrorView {
        match *self {
            Error::InvalidVersion { expected, found } => ErrorView::InvalidVersion {
                expected,
                found,
            },
            Error::Io(err) => ErrorView::Io(err),
            Error::MethodNotFound => ErrorView::MethodNotFound,
            Error::Socks(err) => ErrorView::Socks(err@),
        }
    }
}

impl From<std::io::Error> for Error {
    fn from(err: std::io::Error) -> (r: Self) {
        Error::Io(err)
    }
}

impl vstd::std_specs::convert::FromSpecImpl<std::io::Error> for Error {
    open spec fn obeys_from_spec() -> bool {
        true
    }

    open spec fn from_spec(err: std::io::Error) -> Self {
        Error::Io(err)
    }
}

impl From<SocksError> for Error {
    fn from(err: SocksError) -> (r: Self) {
        Error::Socks(err)
    }
}

impl vstd::std_specs::convert::FromSpecImpl<SocksError> for Error {
    open spec fn obeys_from_spec() -> bool {
        true
    }

    open spec fn from_spec(err: SocksError) -> Self {
        Error::Socks(err)
    }
}

impl From<std::io::Error> for SocksError {
    fn from(err: std::io::Error) -> (r: Self) {
        SocksError::Io(err)
    }
}

impl vstd::std_specs::convert::FromSpecImpl<std::io::Error> for SocksError {
    open spec fn obeys_from_spec() -> bool {
        true
    }

    open spec fn from_spec(err: std::io::Error) -> Self {
        SocksError::Io(err)
    }
}

impl From<std::string::FromUtf8Error> for SocksError {
    fn from(err: std::string::FromUtf8Error) -> (r: Self) {
        SocksError::Utf8(err)
    }
}

impl vstd::std_specs::convert::FromSpecImpl<std::string::FromUtf8Error> for SocksError {
    open spec fn obeys_from_spec() -> bool {
        true
    }

    open spec fn from_spec(err: std::string::FromUtf8Error) -> Self {
        SocksError::Utf8(err)
    }
}

/// The message for an address type that is not among the expected ones.
pub open spec fn invalid_addr_text(expected: Seq<u8>, found: u8) -> Seq<char> {
    "invalid addr type (expected "@ + joined(expected, ", "@) + ", found "@ + decimal(
        found as nat,
    ) + ")"@
}

/// The message for a command that is not the expected one.
pub open spec fn invalid_command_text(expected: u8, found: u8) -> Seq<char> {
    "invalid command (expected "@ + decimal(expected as nat) + ", found "@ + decimal(
        found as nat,
    ) + ")"@
}

/// The message for a protocol version that is not the expected one.
pub open spec fn invalid_version_text(expected: u8, found: u8) -> Seq<char> {
    "invalid protocol version (expected "@ + decimal(expected as nat) + ", found "@ + decimal(
        found as nat,
    ) + ")"@
}

/// Whether `text` is the message of a request failure. A transport or
/// encoding failure is described by the text that `Display` gives for its
/// source.
pub open spec fn describes_socks_error(err: SocksError, text: String) -> bool {
    match err {
        SocksError::InvalidAddr { expected, found } => text@ == invalid_addr_text(
            expected@,
            found,
        ),
        SocksError::InvalidCommand { expected, found } => text@ == invalid_command_text(
            expected,
            found,
        ),
        SocksError::Io(source) => vstd::string::to_string_from_display_ensures::<std::io::Error>(
            &source,
            text,
        ),
        SocksError::Utf8(source) => vstd::string::to_string_from_display_ensures::<
            std::string::FromUtf8Error,
        >(&source, text),
    }
}

/// Whether `text` is the message of a connection failure.
pub open spec fn describes_error(err: Error, text: String) -> bool {
    match err {
        Error::InvalidVersion { expected, found } => text@ == invalid_version_text(
            expected,
            found,
        ),
        Error::Io(source) => vstd::string::to_string_from_display_ensures::<std::io::Error>(
            &source,
            text,
        ),
        Error::MethodNotFound => text@ == "method not found"@,
        Error::Socks(err) => describes_socks_error(err, text),
    }
}

fn expected_found(lead: &str, expected: &str, found: u8) -> (text: String)
    ensures
        text@ == lead@ + expected@ + ", found "@ + decimal(found as nat) + ")"@,
{
    let mut text = String::from_str(lead);
    text.append(expected);
    text.append(", found ");
    text.append(decimal_text(found).as_str());
    text.append(")");
    text
}

impl SocksError {
    /// The message of the failure, for diagnostics.
    pub fn describe(&self) -> (text: String)
        ensures
            describes_socks_error(*self, text),
    {
        match self {
            SocksError::InvalidAddr { expected, found } => {
                let expected = join_decimal(expected, ", ");
                expected_found("invalid addr type (expected ", expected.as_str(), *found)
            },
            SocksError::InvalidCommand { expected, found } => {
                let expected = decimal_text(*expected);
                expected_found("invalid command (expected ", expected.as_str(), *found)
            },
            SocksError::Io(err) => err.to_string(),
            SocksError::Utf8(err) => err.to_string(),
        }
    }
}

impl Error {
    /// The message of the failure, for diagnostics.
    pub fn describe(&self) -> (text: String)
        ensures
            describes_error(*self, text),
    {
        match self {
            Error::InvalidVersion { expected, found } => {
                let expected = decimal_text(*expected);
                expected_found("invalid protocol version (expected ", expected.as_str(), *found)
            },
            Error::Io(err) => err.to_string(),
            Error::MethodNotFound => String::from_str("method not found"),
            Error::Socks(err) => err.describe(),
        }
    }
}

} // verus!
