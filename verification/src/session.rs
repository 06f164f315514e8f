//! The state machine of one client connection. The caller owns the sockets:
//! it performs each [`Action`] and reports what came of it as an [`Event`].

use crate::admission::ConnectionSlots;
use crate::error::{Error, ErrorView, SocksError, SocksErrorView};
use crate::wire::{
    check_address_type, check_command, check_version, decode_domain, decode_octets, decode_port,
    known_address_types, port_of, reply_code, reply_code_of, select_method, selected_method,
    Destination, DestinationView, NegotiationMethod, ReplyCode, CONNECT_COMMAND, DOMAIN_TYPE,
    IPV4_TYPE, IPV6_TYPE, SOCKS_VERSION,
};
use vstd::prelude::*;
use vstd::utf8::{decode_utf8, valid_utf8};

verus! {

/// The bytes that a finished relay carried in each direction.
#[derive(Clone, Copy, Debug, PartialEq, Eq, Structural)]
pub struct Transfer {
    /// From the client to the destination.
    pub sent: u64,
    /// From the destination to the client.
    pub received: u64,
}

/// Where a connection stands. Each phase but the two terminal ones waits for
/// the event that answers the action handed out last.
#[derive(Debug)]
#[allow(inconsistent_fields)]
pub enum Phase {
    /// Turned away at the door; terminal.
    Rejected,
    /// Waiting for the version and the number of offered methods.
    Greeting,
    /// Waiting for `count` offered methods.
    Methods { count: u8 },
    /// Waiting for the method reply to be written.
    MethodReply { method: NegotiationMethod },
    /// Waiting for the four-byte request header.
    Request,
    /// Waiting for the four octets of an IPv4 address.
    AddrV4,
    /// Waiting for the port that follows an IPv4 address.
    PortV4 { octets: [u8; 4] },
    /// Waiting for the sixteen octets of an IPv6 address.
    AddrV6,
    /// Waiting for the port that follows an IPv6 address.
    PortV6 { octets: [u8; 16] },
    /// Waiting for the length of a domain name.
    DomainLen,
    /// Waiting for the `len` bytes of a domain name.
    DomainName { len: u8 },
    /// Waiting for the port that follows a domain name.
    DomainPort { name: String },
    /// Waiting for the outbound connection.
    Connecting,
    /// Waiting for the reply frame to be written; `failure` is what the reply
    /// reports, if the request failed.
    Replying { failure: Option<SocksError> },
    /// Waiting for the relay to end.
    Relaying,
    /// Finished; terminal.
    Closed,
}

/// The mathematical value of a [`Phase`].
#[allow(inconsistent_fields)]
pub enum PhaseView {
    Rejected,
    Greeting,
    Methods { count: u8 },
    MethodReply { method: NegotiationMethod },
    Request,
    AddrV4,
    PortV4 { octets: Seq<u8> },
    AddrV6,
    PortV6 { octets: Seq<u8> },
    DomainLen,
    DomainName { len: u8 },
    DomainPort { name: Seq<char> },
    Connecting,
    Replying { failure: Option<SocksErrorView> },
    Relaying,
    Closed,
}

impl View for Phase {
    type V = PhaseView;

    open spec fn view(&self) -> PhaseView {
        match *self {
            Phase::Rejected => PhaseView::Rejected,
            Phase::Greeting => PhaseView::Greeting,
            Phase::Methods { count } => PhaseView::Methods { count },
            Phase::MethodReply { method } => PhaseView::MethodReply { method },
            Phase::Request => PhaseView::Request,
            Phase::AddrV4 => PhaseView::AddrV4,
            Phase::PortV4 { octets } => PhaseView::PortV4 { octets: octets@ },
            Phase::AddrV6 => PhaseView::AddrV6,
            Phase::PortV6 { octets } => PhaseView::PortV6 { octets: octets@ },
            Phase::DomainLen => PhaseView::DomainLen,
            Phase::DomainName { len } => PhaseView::DomainName { len },
            Phase::DomainPort { name } => PhaseView::DomainPort { name: name@ },
            Phase::Connecting => PhaseView::Connecting,
            Phase::Replying { failure } => PhaseView::Replying {
                failure: match failure {
                    Some(err) => Some(err@),
                    None => None,
                },
            },
            Phase::Relaying => PhaseView::Relaying,
            Phase::Closed => PhaseView::Closed,
        }
    }
}

/// What the caller is to do next.
#[derive(Debug)]
pub enum Action {
    /// Read exactly this many bytes from the client.
    Read(usize),
    /// Write the method reply for this method to the client.
    SendMethod(NegotiationMethod),
    /// Write the reply frame with this code to the client.
    SendReply(ReplyCode),
    /// Resolve the destination if it is a name, and connect to it.
    Connect(Destination),
    /// Copy bytes both ways between the client and the destination.
    Relay,
    /// End the connection with this result.
    Close(Result<Transfer, Error>),
    /// Shut the socket of a rejected connection; nothing is read or written.
    Shutdown,
    /// The event did not answer the pending action: end the connection
    /// without sending anything more.
    Abort,
}

/// The mathematical value of an [`Action`].
pub enum ActionView {
    Read(usize),
    SendMethod(NegotiationMethod),
    SendReply(ReplyCode),
    Connect(DestinationView),
    Relay,
    Close(Result<Transfer, ErrorView>),
    Shutdown,
    Abort,
}

impl View for Action {
    type V = ActionView;

    open spec fn view(&self) -> ActionView {
        match *self {
            Action::Read(n) => ActionView::Read(n),
            Action::SendMethod(method) => ActionView::SendMethod(method),
            Action::SendReply(code) => ActionView::SendReply(code),
            Action::Connect(dest) => ActionView::Connect(dest@),
            Action::Relay => ActionView::Relay,
            Action::Close(result) => ActionView::Close(
                match result {
                    Ok(transfer) => Ok(transfer),
                    Err(err) => Err(err@),
                },
            ),
            Action::Shutdown => ActionView::Shutdown,
            Action::Abort => ActionView::Abort,
        }
    }
}

/// What came of the action handed out last.
#[derive(Debug)]
pub enum Event {
    /// The read delivered exactly the bytes asked for.
    Bytes(Vec<u8>),
    /// The write went through.
    Sent,
    /// The outbound connection stands.
    Connected,
    /// The relay ended; these are the bytes it carried.
    Relayed { sent: u64, received: u64 },
    /// The action failed.
    Failed(std::io::Error),
}

/// The mathematical value of an [`Event`].
pub enum EventView {
    Bytes(Seq<u8>),
    Sent,
    Connected,
    Relayed { sent: u64, received: u64 },
    Failed(std::io::Error),
}

impl View for Event {
    type V = EventView;

    open spec fn view(&self) -> EventView {
        match *self {
            Event::Bytes(bytes) => EventView::Bytes(bytes@),
            Event::Sent => EventView::Sent,
            Event::Connected => EventView::Connected,
            Event::Relayed { sent, received } => EventView::Relayed { sent, received },
            Event::Failed(err) => EventView::Failed(err),
        }
    }
}

/// The number of bytes that a phase waits for, if it waits for a read.
pub open spec fn awaited_bytes(phase: PhaseView) -> Option<int> {
    match phase {
        PhaseView::Greeting => Some(2),
        PhaseView::Methods { count } => Some(count as int),
        PhaseView::Request => Some(4),
        PhaseView::AddrV4 => Some(4),
        PhaseView::PortV4 { .. } => Some(2),
        PhaseView::AddrV6 => Some(16),
        PhaseView::PortV6 { .. } => Some(2),
        PhaseView::DomainLen => Some(1),
        PhaseView::DomainName { len } => Some(len as int),
        PhaseView::DomainPort { .. } => Some(2),
        _ => None,
    }
}

/// The step taken on an event that does not answer the pending action.
pub open spec fn aborted() -> (PhaseView, ActionView) {
    (PhaseView::Closed, ActionView::Abort)
}

/// The step that ends a connection with an error, nothing more being sent.
pub open spec fn closed_with(err: ErrorView) -> (PhaseView, ActionView) {
    (PhaseView::Closed, ActionView::Close(Err(err)))
}

/// The step that reports a failed request to the client.
pub open spec fn refused_with(err: SocksErrorView) -> (PhaseView, ActionView) {
    (PhaseView::Replying { failure: Some(err) }, ActionView::SendReply(reply_code_of(err)))
}

/// The step taken on a request header of four bytes.
pub open spec fn next_on_request(header: Seq<u8>) -> (PhaseView, ActionView)
    recommends
        header.len() == 4,
{
    if header[0] != SOCKS_VERSION {
        closed_with(ErrorView::InvalidVersion { expected: SOCKS_VERSION, found: header[0] })
    } else if header[1] != CONNECT_COMMAND {
        refused_with(
            SocksErrorView::InvalidCommand { expected: CONNECT_COMMAND, found: header[1] },
        )
    } else if header[3] == IPV4_TYPE {
        (PhaseView::AddrV4, ActionView::Read(4))
    } else if header[3] == DOMAIN_TYPE {
        (PhaseView::DomainLen, ActionView::Read(1))
    } else if header[3] == IPV6_TYPE {
        (PhaseView::AddrV6, ActionView::Read(16))
    } else {
        refused_with(
            SocksErrorView::InvalidAddr { expected: known_address_types(), found: header[3] },
        )
    }
}

/// The step taken when a read delivers `bytes`.
pub open spec fn next_on_bytes(phase: PhaseView, bytes: Seq<u8>) -> (PhaseView, ActionView) {
    if awaited_bytes(phase) != Some(bytes.len() as int) {
        aborted()
    } else {
        match phase {
            PhaseView::Greeting => if bytes[0] != SOCKS_VERSION {
                closed_with(ErrorView::InvalidVersion { expected: SOCKS_VERSION, found: bytes[0] })
            } else {
                (PhaseView::Methods { count: bytes[1] }, ActionView::Read(bytes[1] as usize))
            },
            PhaseView::Methods { .. } => (
                PhaseView::MethodReply { method: selected_method(bytes) },
                ActionView::SendMethod(selected_method(bytes)),
            ),
            PhaseView::Request => next_on_request(bytes),
            PhaseView::AddrV4 => (PhaseView::PortV4 { octets: bytes }, ActionView::Read(2)),
            PhaseView::PortV4 { octets } => (
                PhaseView::Connecting,
                ActionView::Connect(DestinationView::V4 { octets, port: port_of(bytes) }),
            ),
            PhaseView::AddrV6 => (PhaseView::PortV6 { octets: bytes }, ActionView::Read(2)),
            PhaseView::PortV6 { octets } => (
                PhaseView::Connecting,
                ActionView::Connect(DestinationView::V6 { octets, port: port_of(bytes) }),
            ),
            PhaseView::DomainLen => (
                PhaseView::DomainName { len: bytes[0] },
                ActionView::Read(bytes[0] as usize),
            ),
            PhaseView::DomainName { .. } => if valid_utf8(bytes) {
                (PhaseView::DomainPort { name: decode_utf8(bytes) }, ActionView::Read(2))
            } else {
                refused_with(SocksErrorView::Utf8)
            },
            PhaseView::DomainPort { name } => (
                PhaseView::Connecting,
                ActionView::Connect(DestinationView::Domain { name, port: port_of(bytes) }),
            ),
            _ => aborted(),
        }
    }
}

/// The step taken when a write has gone through.
pub open spec fn next_on_sent(phase: PhaseView) -> (PhaseView, ActionView) {
    match phase {
        PhaseView::MethodReply { method } => if method == NegotiationMethod::NoAuth {
            (PhaseView::Request, ActionView::Read(4))
        } else {
            closed_with(ErrorView::MethodNotFound)
        },
        PhaseView::Replying { failure } => match failure {
            None => (PhaseView::Relaying, ActionView::Relay),
            Some(err) => closed_with(ErrorView::Socks(err)),
        },
        _ => aborted(),
    }
}

/// Whether a failure in this phase belongs to the request and is therefore
/// reported to the client in a reply frame.
pub open spec fn serving_request(phase: PhaseView) -> bool {
    match phase {
        PhaseView::AddrV4
        | PhaseView::PortV4 { .. }
        | PhaseView::AddrV6
        | PhaseView::PortV6 { .. }
        | PhaseView::DomainLen
        | PhaseView::DomainName { .. }
        | PhaseView::DomainPort { .. }
        | PhaseView::Connecting => true,
        _ => false,
    }
}

/// Whether the phase is one of the two that end a connection.
pub open spec fn terminal(phase: PhaseView) -> bool {
    phase == PhaseView::Rejected || phase == PhaseView::Closed
}

/// The step taken when the pending action failed.
pub open spec fn next_on_failure(phase: PhaseView, err: std::io::Error) -> (
    PhaseView,
    ActionView,
) {
    if terminal(phase) {
        aborted()
    } else if serving_request(phase) {
        refused_with(SocksErrorView::Io(err))
    } else {
        closed_with(ErrorView::Io(err))
    }
}

/// The transition function: the phase that follows and the action to perform.
pub open spec fn next(phase: PhaseView, event: EventView) -> (PhaseView, ActionView) {
    match event {
        EventView::Bytes(bytes) => next_on_bytes(phase, bytes),
        EventView::Sent => next_on_sent(phase),
        EventView::Connected => if phase == PhaseView::Connecting {
            (PhaseView::Replying { failure: None }, ActionView::SendReply(ReplyCode::Success))
        } else {
            aborted()
        },
        EventView::Relayed { sent, received } => if phase == PhaseView::Relaying {
            (PhaseView::Closed, ActionView::Close(Ok(Transfer { sent, received })))
        } else {
            aborted()
        },
        EventView::Failed(err) => next_on_failure(phase, err),
    }
}

/// The step on which a connection starts: turned away when the slots are full,
/// else admitted and asked for its greeting.
pub open spec fn admission(full: bool) -> (PhaseView, ActionView) {
    if full {
        (PhaseView::Rejected, ActionView::Shutdown)
    } else {
        (PhaseView::Greeting, ActionView::Read(2))
    }
}

fn abort() -> (r: (Phase, Action))
    ensures
        (r.0@, r.1@) == aborted(),
{
    (Phase::Closed, Action::Abort)
}

fn close(err: Error) -> (r: (Phase, Action))
    ensures
        (r.0@, r.1@) == closed_with(err@),
{
    (Phase::Closed, Action::Close(Err(err)))
}

fn refuse(err: SocksError) -> (r: (Phase, Action))
    ensures
        (r.0@, r.1@) == refused_with(err@),
{
    let code = reply_code(&err);
    (Phase::Replying { failure: Some(err) }, Action::SendReply(code))
}

fn on_request(header: &[u8]) -> (r: (Phase, Action))
    requires
        header@.len() == 4,
    ensures
        (r.0@, r.1@) == next_on_request(header@),
{
    if let Err(err) = check_version(header[0]) {
        return close(err);
    }
    if let Err(err) = check_command(header[1]) {
        return refuse(err);
    }
    let kind: u8 = header[3];
    if let Err(err) = check_address_type(kind) {
        proof {
            assert(known_address_types()[0] == IPV4_TYPE);
            assert(known_address_types()[1] == DOMAIN_TYPE);
            assert(known_address_types()[2] == IPV6_TYPE);
        }
        return refuse(err);
    }
    if kind == IPV4_TYPE {
        (Phase::AddrV4, Action::Read(4))
    } else if kind == DOMAIN_TYPE {
        (Phase::DomainLen, Action::Read(1))
    } else {
        (Phase::AddrV6, Action::Read(16))
    }
}

fn on_bytes(phase: Phase, bytes: Vec<u8>) -> (r: (Phase, Action))
    ensures
        (r.0@, r.1@) == next_on_bytes(phase@, bytes@),
{
    match phase {
        Phase::Greeting => {
            if bytes.len() != 2 {
                return abort();
            }
            match check_version(bytes[0]) {
                Err(err) => close(err),
                Ok(()) => {
                    let count: u8 = bytes[1];
                    (Phase::Methods { count }, Action::Read(count as usize))
                },
            }
        },
        Phase::Methods { count } => {
            if bytes.len() != count as usize {
                return abort();
            }
            let method = select_method(bytes.as_slice());
            (Phase::MethodReply { method }, Action::SendMethod(method))
        },
        Phase::Request => {
            if bytes.len() != 4 {
                return abort();
            }
            on_request(bytes.as_slice())
        },
        Phase::AddrV4 => {
            if bytes.len() != 4 {
                return abort();
            }
            let octets: [u8; 4] = decode_octets(bytes.as_slice());
            (Phase::PortV4 { octets }, Action::Read(2))
        },
        Phase::PortV4 { octets } => {
            if bytes.len() != 2 {
                return abort();
            }
            let port = decode_port(bytes.as_slice());
            (Phase::Connecting, Action::Connect(Destination::V4 { octets, port }))
        },
        Phase::AddrV6 => {
            if bytes.len() != 16 {
                return abort();
            }
            let octets: [u8; 16] = decode_octets(bytes.as_slice());
            (Phase::PortV6 { octets }, Action::Read(2))
        },
        Phase::PortV6 { octets } => {
            if bytes.len() != 2 {
                return abort();
            }
            let port = decode_port(bytes.as_slice());
            (Phase::Connecting, Action::Connect(Destination::V6 { octets, port }))
        },
        Phase::DomainLen => {
            if bytes.len() != 1 {
                return abort();
            }
            let len: u8 = bytes[0];
            (Phase::DomainName { len }, Action::Read(len as usize))
        },
        Phase::DomainName { len } => {
            if bytes.len() != len as usize {
                return abort();
            }
            match decode_domain(bytes) {
                Ok(name) => (Phase::DomainPort { name }, Action::Read(2)),
                Err(err) => refuse(err),
            }
        },
        Phase::DomainPort { name } => {
            if bytes.len() != 2 {
                return abort();
            }
            let port = decode_port(bytes.as_slice());
            (Phase::Connecting, Action::Connect(Destination::Domain { name, port }))
        },
        _ => abort(),
    }
}

fn on_sent(phase: Phase) -> (r: (Phase, Action))
    ensures
        (r.0@, r.1@) == next_on_sent(phase@),
{
    match phase {
        Phase::MethodReply { method } => match method {
            NegotiationMethod::NoAuth => (Phase::Request, Action::Read(4)),
            _ => close(Error::MethodNotFound),
        },
        Phase::Replying { failure } => match failure {
            None => (Phase::Relaying, Action::Relay),
            Some(err) => close(Error::Socks(err)),
        },
        _ => abort(),
    }
}

fn on_failure(phase: Phase, err: std::io::Error) -> (r: (Phase, Action))
    ensures
        (r.0@, r.1@) == next_on_failure(phase@, err),
{
    match phase {
        Phase::Rejected | Phase::Closed => abort(),
        Phase::AddrV4
        | Phase::PortV4 { .. }
        | Phase::AddrV6
        | Phase::PortV6 { .. }
        | Phase::DomainLen
        | Phase::DomainName { .. }
        | Phase::DomainPort { .. }
        | Phase::Connecting => refuse(SocksError::Io(err)),
        _ => close(Error::Io(err)),
    }
}

impl Phase {
    /// Starts a connection that was just accepted: takes a slot for it if one
    /// is free and asks for its greeting, or turns it away with the count
    /// left as it was.
    pub fn accept(slots: &mut ConnectionSlots) -> (r: (Phase, Action))
        ensures
            old(slots).wf(),
            final(slots).wf(),
            final(slots).capacity() == old(slots).capacity(),
            (r.0@, r.1@) == admission(old(slots).full()),
            old(slots).full() ==> final(slots).active_count() == old(slots).active_count(),
            !old(slots).full() ==> final(slots).active_count() == old(slots).active_count() + 1,
    {
        if slots.try_acquire() {
            (Phase::Greeting, Action::Read(2))
        } else {
            (Phase::Rejected, Action::Shutdown)
        }
    }

    /// Whether the connection has ended.
    pub fn is_terminal(&self) -> (b: bool)
        ensures
            b == terminal(self@),
    {
        match self {
            Phase::Rejected | Phase::Closed => true,
            _ => false,
        }
    }

    /// Takes one step: consumes the event that answers the pending action and
    /// gives the phase that follows with the action to perform next.
    pub fn step(self, event: Event) -> (r: (Phase, Action))
        ensures
            (r.0@, r.1@) == next(self@, event@),
    {
        match event {
            Event::Bytes(bytes) => on_bytes(self, bytes),
            Event::Sent => on_sent(self),
            Event::Connected => match self {
                Phase::Connecting => (
                    Phase::Replying { failure: None },
                    Action::SendReply(ReplyCode::Success),
                ),
                _ => abort(),
            },
            Event::Relayed { sent, received } => match self {
                Phase::Relaying => (Phase::Closed, Action::Close(Ok(Transfer { sent, received }))),
                _ => abort(),
            },
            Event::Failed(err) => on_failure(self, err),
        }
    }
}

/// A connection that has ended stays ended: whatever is reported to it, nothing
/// more is read, written or connected.
pub proof fn terminal_phases_absorb(phase: PhaseView, event: EventView)
    requires
        terminal(phase),
    ensures
        next(phase, event) == aborted(),
{
}

/// With as many connections served as the limit allows, a new connection is
/// turned away: its socket is shut without a read or a write, and the count
/// that `accept` leaves is the one it found.
pub proof fn full_slots_turn_away(slots: ConnectionSlots)
    requires
        slots.wf(),
        slots.active_count() == slots.capacity(),
    ensures
        slots.full(),
        admission(slots.full()) == (PhaseView::Rejected, ActionView::Shutdown),
        forall|event: EventView| #[trigger] next(PhaseView::Rejected, event) == aborted(),
{
}

/// A message with a version other than the protocol's ends the connection at
/// once, in the greeting as in the request header: the step is a close with
/// `InvalidVersion`, no reply frame is sent, and nothing follows.
pub proof fn wrong_version_closes_without_reply(message: Seq<u8>)
    requires
        message.len() >= 1,
        message[0] != SOCKS_VERSION,
    ensures
        message.len() == 2 ==> next(PhaseView::Greeting, EventView::Bytes(message)) == closed_with(
            ErrorView::InvalidVersion { expected: SOCKS_VERSION, found: message[0] },
        ),
        message.len() == 4 ==> next(PhaseView::Request, EventView::Bytes(message)) == closed_with(
            ErrorView::InvalidVersion { expected: SOCKS_VERSION, found: message[0] },
        ),
        forall|event: EventView| #[trigger] next(PhaseView::Closed, event) == aborted(),
{
}

/// An offer that holds user name and password but not no-authentication is
/// answered with the user-name-and-password method, and once that answer is
/// written the connection ends with `MethodNotFound`: no request is read.
pub proof fn userpass_is_acknowledged_then_refused(count: u8, offered: Seq<u8>)
    requires
        offered.len() == count,
        offered.contains(crate::wire::AUTH_METHOD),
        !offered.contains(crate::wire::NO_AUTH_METHOD),
    ensures
        next(PhaseView::Methods { count }, EventView::Bytes(offered)) == (
            PhaseView::MethodReply { method: NegotiationMethod::UserPass },
            ActionView::SendMethod(NegotiationMethod::UserPass),
        ),
        next(PhaseView::MethodReply { method: NegotiationMethod::UserPass }, EventView::Sent)
            == closed_with(ErrorView::MethodNotFound),
{
    crate::wire::offer_with_only_userpass_selects_it(offered);
}

/// A request header of the right version whose command is not CONNECT is
/// answered with the code 0x07, and the connection ends once the reply is
/// written.
pub proof fn unknown_command_replies_not_supported(command: u8, reserved: u8, kind: u8)
    requires
        command != CONNECT_COMMAND,
    ensures
        ({
            let failure = SocksErrorView::InvalidCommand {
                expected: CONNECT_COMMAND,
                found: command,
            };
            let header = seq![SOCKS_VERSION, command, reserved, kind];
            &&& next(PhaseView::Request, EventView::Bytes(header)) == (
                PhaseView::Replying { failure: Some(failure) },
                ActionView::SendReply(ReplyCode::CommandNotSupported),
            )
            &&& crate::wire::reply_frame(ReplyCode::CommandNotSupported)[1] == 0x07
            &&& next(PhaseView::Replying { failure: Some(failure) }, EventView::Sent)
                == closed_with(ErrorView::Socks(failure))
        }),
{
}

/// A CONNECT request header of the right version whose address type is none of
/// the three known ones is answered with the code 0x08 before any byte of the
/// address is read, and the connection ends once the reply is written.
pub proof fn unknown_address_type_replies_not_supported(reserved: u8, kind: u8)
    requires
        kind != IPV4_TYPE,
        kind != DOMAIN_TYPE,
        kind != IPV6_TYPE,
    ensures
        ({
            let failure = SocksErrorView::InvalidAddr {
                expected: known_address_types(),
                found: kind,
            };
            let header = seq![SOCKS_VERSION, CONNECT_COMMAND, reserved, kind];
            &&& next(PhaseView::Request, EventView::Bytes(header)) == (
                PhaseView::Replying { failure: Some(failure) },
                ActionView::SendReply(ReplyCode::AddressTypeNotSupported),
            )
            &&& crate::wire::reply_frame(ReplyCode::AddressTypeNotSupported)[1] == 0x08
            &&& next(PhaseView::Replying { failure: Some(failure) }, EventView::Sent)
                == closed_with(ErrorView::Socks(failure))
        }),
{
}

/// Once the outbound connection stands, whatever the destination was, the
/// client is sent the success code, and the relay starts when that reply is
/// written.
pub proof fn connected_replies_success()
    ensures
        next(PhaseView::Connecting, EventView::Connected) == (
            PhaseView::Replying { failure: None },
            ActionView::SendReply(ReplyCode::Success),
        ),
        crate::wire::reply_frame(ReplyCode::Success)[1] == 0x00,
        next(PhaseView::Replying { failure: None }, EventView::Sent) == (
            PhaseView::Relaying,
            ActionView::Relay,
        ),
{
}

/// A CONNECT request for an IPv4 address leads, read by read, to a connection
/// attempt at that address and port; when the attempt succeeds the reply
/// carries the success code.
pub proof fn ipv4_connect_replies_success(reserved: u8, octets: Seq<u8>, port: Seq<u8>)
    requires
        octets.len() == 4,
        port.len() == 2,
    ensures
        ({
            let header = seq![SOCKS_VERSION, CONNECT_COMMAND, reserved, IPV4_TYPE];
            let first = next(PhaseView::Request, EventView::Bytes(header));
            let second = next(first.0, EventView::Bytes(octets));
            let third = next(second.0, EventView::Bytes(port));
            let fourth = next(third.0, EventView::Connected);
            &&& first.1 == ActionView::Read(4)
            &&& second.1 == ActionView::Read(2)
            &&& third.1 == ActionView::Connect(
                DestinationView::V4 { octets, port: port_of(port) },
            )
            &&& fourth.1 == ActionView::SendReply(ReplyCode::Success)
            &&& crate::wire::reply_frame(ReplyCode::Success)[1] == 0x00
        }),
{
}

/// A CONNECT request for a domain name leads, read by read, to a connection
/// attempt at the name that the bytes spell and the port that follows; when
/// the attempt succeeds the reply carries the success code.
pub proof fn domain_connect_replies_success(reserved: u8, len: u8, name: Seq<u8>, port: Seq<u8>)
    requires
        name.len() == len,
        valid_utf8(name),
        port.len() == 2,
    ensures
        ({
            let header = seq![SOCKS_VERSION, CONNECT_COMMAND, reserved, DOMAIN_TYPE];
            let first = next(PhaseView::Request, EventView::Bytes(header));
            let second = next(first.0, EventView::Bytes(seq![len]));
            let third = next(second.0, EventView::Bytes(name));
            let fourth = next(third.0, EventView::Bytes(port));
            let fifth = next(fourth.0, EventView::Connected);
            &&& first.1 == ActionView::Read(1)
            &&& second.1 == ActionView::Read(len as usize)
            &&& third.1 == ActionView::Read(2)
            &&& fourth.1 == ActionView::Connect(
                DestinationView::Domain { name: decode_utf8(name), port: port_of(port) },
            )
            &&& fifth.1 == ActionView::SendReply(ReplyCode::Success)
        }),
{
}

/// A reply frame is sent exactly on the step that enters the replying phase,
/// with the code that belongs to the request's outcome, and no step leads from
/// that phase back into it: a connection is sent at most one reply.
pub proof fn reply_is_sent_once(phase: PhaseView, event: EventView)
    ensures
        next(phase, event).1 is SendReply <==> next(phase, event).0 is Replying,
        next(phase, event).0 matches PhaseView::Replying { failure } ==> next(phase, event).1
            == ActionView::SendReply(
            match failure {
                None => ReplyCode::Success,
                Some(err) => reply_code_of(err),
            },
        ),
        phase is Replying ==> !(next(phase, event).0 is Replying),
{
}

/// The request is read only after the no-authentication method was chosen and
/// acknowledged: a step asks for the request header exactly when the answer
/// to the offer, naming that method, has been written.
pub proof fn request_follows_no_auth_only(phase: PhaseView, event: EventView)
    ensures
        next(phase, event).0 == PhaseView::Request <==> (phase == PhaseView::MethodReply {
            method: NegotiationMethod::NoAuth,
        } && event == EventView::Sent),
{
}

} // verus!
