//! Socket-monitor events: what the messaging library reports about each
//! connection, and how its two-frame messages decode.
//!
//! A monitor message has two frames: six bytes holding a 16-bit event code and a
//! 32-bit data word, both in the machine's byte order (the channel never leaves
//! the process), and the address of the endpoint the event is about.

use vstd::prelude::*;

use crate::text::{push_decimal, push_str, string_from_utf8_lossy, utf8_lossy, decimal};

verus! {

/// Event code `ZMQ_EVENT_CONNECTED` of the messaging library.
pub const ZMQ_EVENT_CONNECTED: u32 = 1;

/// Event code `ZMQ_EVENT_CONNECT_DELAYED` of the messaging library.
pub const ZMQ_EVENT_CONNECT_DELAYED: u32 = 2;

/// Event code `ZMQ_EVENT_CONNECT_RETRIED` of the messaging library.
pub const ZMQ_EVENT_CONNECT_RETRIED: u32 = 4;

/// Event code `ZMQ_EVENT_LISTENING` of the messaging library.
pub const ZMQ_EVENT_LISTENING: u32 = 8;

/// Event code `ZMQ_EVENT_BIND_FAILED` of the messaging library.
pub const ZMQ_EVENT_BIND_FAILED: u32 = 16;

/// Event code `ZMQ_EVENT_ACCEPTED` of the messaging library.
pub const ZMQ_EVENT_ACCEPTED: u32 = 32;

/// Event code `ZMQ_EVENT_ACCEPT_FAILED` of the messaging library.
pub const ZMQ_EVENT_ACCEPT_FAILED: u32 = 64;

/// Event code `ZMQ_EVENT_CLOSED` of the messaging library.
pub const ZMQ_EVENT_CLOSED: u32 = 128;

/// Event code `ZMQ_EVENT_CLOSE_FAILED` of the messaging library.
pub const ZMQ_EVENT_CLOSE_FAILED: u32 = 256;

/// Event code `ZMQ_EVENT_DISCONNECTED` of the messaging library.
pub const ZMQ_EVENT_DISCONNECTED: u32 = 512;

/// Event code `ZMQ_EVENT_MONITOR_STOPPED` of the messaging library.
pub const ZMQ_EVENT_MONITOR_STOPPED: u32 = 1024;

/// Event code `ZMQ_EVENT_HANDSHAKE_FAILED_NO_DETAIL` of the messaging library.
pub const ZMQ_EVENT_HANDSHAKE_FAILED_NO_DETAIL: u32 = 2048;

/// Event code `ZMQ_EVENT_HANDSHAKE_SUCCEEDED` of the messaging library.
pub const ZMQ_EVENT_HANDSHAKE_SUCCEEDED: u32 = 4096;

/// Event code `ZMQ_EVENT_HANDSHAKE_FAILED_PROTOCOL` of the messaging library.
pub const ZMQ_EVENT_HANDSHAKE_FAILED_PROTOCOL: u32 = 8192;

/// Event code `ZMQ_EVENT_HANDSHAKE_FAILED_AUTH` of the messaging library.
pub const ZMQ_EVENT_HANDSHAKE_FAILED_AUTH: u32 = 16384;

/// Protocol error `ZMQ_PROTOCOL_ERROR_ZMTP_UNSPECIFIED` of the messaging library.
pub const ZMQ_PROTOCOL_ERROR_ZMTP_UNSPECIFIED: u32 = 0x10000000;

/// Protocol error `ZMQ_PROTOCOL_ERROR_ZMTP_UNEXPECTED_COMMAND` of the messaging library.
pub const ZMQ_PROTOCOL_ERROR_ZMTP_UNEXPECTED_COMMAND: u32 = 0x10000001;

/// Protocol error `ZMQ_PROTOCOL_ERROR_ZMTP_INVALID_SEQUENCE` of the messaging library.
pub const ZMQ_PROTOCOL_ERROR_ZMTP_INVALID_SEQUENCE: u32 = 0x10000002;

/// Protocol error `ZMQ_PROTOCOL_ERROR_ZMTP_KEY_EXCHANGE` of the messaging library.
pub const ZMQ_PROTOCOL_ERROR_ZMTP_KEY_EXCHANGE: u32 = 0x10000003;

/// Protocol error `ZMQ_PROTOCOL_ERROR_ZMTP_MALFORMED_COMMAND_UNSPECIFIED` of the messaging library.
pub const ZMQ_PROTOCOL_ERROR_ZMTP_MALFORMED_COMMAND_UNSPECIFIED: u32 = 0x10000011;

/// Protocol error `ZMQ_PROTOCOL_ERROR_ZMTP_MALFORMED_COMMAND_MESSAGE` of the messaging library.
pub const ZMQ_PROTOCOL_ERROR_ZMTP_MALFORMED_COMMAND_MESSAGE: u32 = 0x10000012;

/// Protocol error `ZMQ_PROTOCOL_ERROR_ZMTP_MALFORMED_COMMAND_HELLO` of the messaging library.
pub const ZMQ_PROTOCOL_ERROR_ZMTP_MALFORMED_COMMAND_HELLO: u32 = 0x10000013;

/// Protocol error `ZMQ_PROTOCOL_ERROR_ZMTP_MALFORMED_COMMAND_INITIATE` of the messaging library.
pub const ZMQ_PROTOCOL_ERROR_ZMTP_MALFORMED_COMMAND_INITIATE: u32 = 0x10000014;

/// Protocol error `ZMQ_PROTOCOL_ERROR_ZMTP_MALFORMED_COMMAND_ERROR` of the messaging library.
pub const ZMQ_PROTOCOL_ERROR_ZMTP_MALFORMED_COMMAND_ERROR: u32 = 0x10000015;

/// Protocol error `ZMQ_PROTOCOL_ERROR_ZMTP_MALFORMED_COMMAND_READY` of the messaging library.
pub const ZMQ_PROTOCOL_ERROR_ZMTP_MALFORMED_COMMAND_READY: u32 = 0x10000016;

/// Protocol error `ZMQ_PROTOCOL_ERROR_ZMTP_MALFORMED_COMMAND_WELCOME` of the messaging library.
pub const ZMQ_PROTOCOL_ERROR_ZMTP_MALFORMED_COMMAND_WELCOME: u32 = 0x10000017;

/// Protocol error `ZMQ_PROTOCOL_ERROR_ZMTP_INVALID_METADATA` of the messaging library.
pub const ZMQ_PROTOCOL_ERROR_ZMTP_INVALID_METADATA: u32 = 0x10000018;

/// Protocol error `ZMQ_PROTOCOL_ERROR_ZMTP_CRYPTOGRAPHIC` of the messaging library.
pub const ZMQ_PROTOCOL_ERROR_ZMTP_CRYPTOGRAPHIC: u32 = 0x11000001;

/// Protocol error `ZMQ_PROTOCOL_ERROR_ZMTP_MECHANISM_MISMATCH` of the messaging library.
pub const ZMQ_PROTOCOL_ERROR_ZMTP_MECHANISM_MISMATCH: u32 = 0x11000002;

/// Protocol error `ZMQ_PROTOCOL_ERROR_ZAP_UNSPECIFIED` of the messaging library.
pub const ZMQ_PROTOCOL_ERROR_ZAP_UNSPECIFIED: u32 = 0x20000000;

/// Protocol error `ZMQ_PROTOCOL_ERROR_ZAP_MALFORMED_REPLY` of the messaging library.
pub const ZMQ_PROTOCOL_ERROR_ZAP_MALFORMED_REPLY: u32 = 0x20000001;

/// Protocol error `ZMQ_PROTOCOL_ERROR_ZAP_BAD_REQUEST_ID` of the messaging library.
pub const ZMQ_PROTOCOL_ERROR_ZAP_BAD_REQUEST_ID: u32 = 0x20000002;

/// Protocol error `ZMQ_PROTOCOL_ERROR_ZAP_BAD_VERSION` of the messaging library.
pub const ZMQ_PROTOCOL_ERROR_ZAP_BAD_VERSION: u32 = 0x20000003;

/// Protocol error `ZMQ_PROTOCOL_ERROR_ZAP_INVALID_STATUS_CODE` of the messaging library.
pub const ZMQ_PROTOCOL_ERROR_ZAP_INVALID_STATUS_CODE: u32 = 0x20000004;

/// Protocol error `ZMQ_PROTOCOL_ERROR_ZAP_INVALID_METADATA` of the messaging library.
pub const ZMQ_PROTOCOL_ERROR_ZAP_INVALID_METADATA: u32 = 0x20000005;

/// Why a handshake failed on the protocol level: the data word of a
/// [`SocketEvent::HandshakeFailedProtocol`] event.
#[derive(Debug, Clone, Copy, PartialEq, Eq)]
pub enum HandshakeFailure {
    /// `ZMQ_PROTOCOL_ERROR_ZMTP_UNSPECIFIED`
    ZmtpUnspecified,
    /// `ZMQ_PROTOCOL_ERROR_ZMTP_UNEXPECTED_COMMAND`
    ZmtpUnexpectedCommand,
    /// `ZMQ_PROTOCOL_ERROR_ZMTP_INVALID_SEQUENCE`
    ZmtpInvalidSequence,
    /// `ZMQ_PROTOCOL_ERROR_ZMTP_KEY_EXCHANGE`
    ZmtpKeyExchange,
    /// `ZMQ_PROTOCOL_ERROR_ZMTP_MALFORMED_COMMAND_UNSPECIFIED`
    ZmtpMalformedCommandUnspecified,
    /// `ZMQ_PROTOCOL_ERROR_ZMTP_MALFORMED_COMMAND_MESSAGE`
    ZmtpMalformedCommandMessage,
    /// `ZMQ_PROTOCOL_ERROR_ZMTP_MALFORMED_COMMAND_HELLO`
    ZmtpMalformedCommandHello,
    /// `ZMQ_PROTOCOL_ERROR_ZMTP_MALFORMED_COMMAND_INITIATE`
    ZmtpMalformedCommandInitiate,
    /// `ZMQ_PROTOCOL_ERROR_ZMTP_MALFORMED_COMMAND_ERROR`
    ZmtpMalformedCommandError,
    /// `ZMQ_PROTOCOL_ERROR_ZMTP_MALFORMED_COMMAND_READY`
    ZmtpMalformedCommandReady,
    /// `ZMQ_PROTOCOL_ERROR_ZMTP_MALFORMED_COMMAND_WELCOME`
    ZmtpMalformedCommandWelcome,
    /// `ZMQ_PROTOCOL_ERROR_ZMTP_INVALID_METADATA`
    ZmtpInvalidMetadata,
    /// `ZMQ_PROTOCOL_ERROR_ZMTP_CRYPTOGRAPHIC`
    ZmtpCryptographic,
    /// `ZMQ_PROTOCOL_ERROR_ZMTP_MECHANISM_MISMATCH`
    ZmtpMechanismMismatch,
    /// `ZMQ_PROTOCOL_ERROR_ZAP_UNSPECIFIED`
    ZapUnspecified,
    /// `ZMQ_PROTOCOL_ERROR_ZAP_MALFORMED_REPLY`
    ZapMalformedReply,
    /// `ZMQ_PROTOCOL_ERROR_ZAP_BAD_REQUEST_ID`
    ZapBadRequestId,
    /// `ZMQ_PROTOCOL_ERROR_ZAP_BAD_VERSION`
    ZapBadVersion,
    /// `ZMQ_PROTOCOL_ERROR_ZAP_INVALID_STATUS_CODE`
    ZapInvalidStatusCode,
    /// `ZMQ_PROTOCOL_ERROR_ZAP_INVALID_METADATA`
    ZapInvalidMetadata,
}

impl HandshakeFailure {
    /// The failure's code.
    pub open spec fn code(self) -> u32 {
        match self {
            HandshakeFailure::ZmtpUnspecified => ZMQ_PROTOCOL_ERROR_ZMTP_UNSPECIFIED,
            HandshakeFailure::ZmtpUnexpectedCommand => ZMQ_PROTOCOL_ERROR_ZMTP_UNEXPECTED_COMMAND,
            HandshakeFailure::ZmtpInvalidSequence => ZMQ_PROTOCOL_ERROR_ZMTP_INVALID_SEQUENCE,
            HandshakeFailure::ZmtpKeyExchange => ZMQ_PROTOCOL_ERROR_ZMTP_KEY_EXCHANGE,
            HandshakeFailure::ZmtpMalformedCommandUnspecified => ZMQ_PROTOCOL_ERROR_ZMTP_MALFORMED_COMMAND_UNSPECIFIED,
            HandshakeFailure::ZmtpMalformedCommandMessage => ZMQ_PROTOCOL_ERROR_ZMTP_MALFORMED_COMMAND_MESSAGE,
            HandshakeFailure::ZmtpMalformedCommandHello => ZMQ_PROTOCOL_ERROR_ZMTP_MALFORMED_COMMAND_HELLO,
            HandshakeFailure::ZmtpMalformedCommandInitiate => ZMQ_PROTOCOL_ERROR_ZMTP_MALFORMED_COMMAND_INITIATE,
            HandshakeFailure::ZmtpMalformedCommandError => ZMQ_PROTOCOL_ERROR_ZMTP_MALFORMED_COMMAND_ERROR,
            HandshakeFailure::ZmtpMalformedCommandReady => ZMQ_PROTOCOL_ERROR_ZMTP_MALFORMED_COMMAND_READY,
            HandshakeFailure::ZmtpMalformedCommandWelcome => ZMQ_PROTOCOL_ERROR_ZMTP_MALFORMED_COMMAND_WELCOME,
            HandshakeFailure::ZmtpInvalidMetadata => ZMQ_PROTOCOL_ERROR_ZMTP_INVALID_METADATA,
            HandshakeFailure::ZmtpCryptographic => ZMQ_PROTOCOL_ERROR_ZMTP_CRYPTOGRAPHIC,
            HandshakeFailure::ZmtpMechanismMismatch => ZMQ_PROTOCOL_ERROR_ZMTP_MECHANISM_MISMATCH,
            HandshakeFailure::ZapUnspecified => ZMQ_PROTOCOL_ERROR_ZAP_UNSPECIFIED,
            HandshakeFailure::ZapMalformedReply => ZMQ_PROTOCOL_ERROR_ZAP_MALFORMED_REPLY,
            HandshakeFailure::ZapBadRequestId => ZMQ_PROTOCOL_ERROR_ZAP_BAD_REQUEST_ID,
            HandshakeFailure::ZapBadVersion => ZMQ_PROTOCOL_ERROR_ZAP_BAD_VERSION,
            HandshakeFailure::ZapInvalidStatusCode => ZMQ_PROTOCOL_ERROR_ZAP_INVALID_STATUS_CODE,
            HandshakeFailure::ZapInvalidMetadata => ZMQ_PROTOCOL_ERROR_ZAP_INVALID_METADATA,
        }
    }

    /// The failure with code `data`, if there is one.
    pub open spec fn spec_from_raw(data: u32) -> Option<HandshakeFailure> {
        if data == ZMQ_PROTOCOL_ERROR_ZMTP_UNSPECIFIED {
            Some(HandshakeFailure::ZmtpUnspecified)
        } else if data == ZMQ_PROTOCOL_ERROR_ZMTP_UNEXPECTED_COMMAND {
            Some(HandshakeFailure::ZmtpUnexpectedCommand)
        } else if data == ZMQ_PROTOCOL_ERROR_ZMTP_INVALID_SEQUENCE {
            Some(HandshakeFailure::ZmtpInvalidSequence)
        } else if data == ZMQ_PROTOCOL_ERROR_ZMTP_KEY_EXCHANGE {
            Some(HandshakeFailure::ZmtpKeyExchange)
        } else if data == ZMQ_PROTOCOL_ERROR_ZMTP_MALFORMED_COMMAND_UNSPECIFIED {
            Some(HandshakeFailure::ZmtpMalformedCommandUnspecified)
        } else if data == ZMQ_PROTOCOL_ERROR_ZMTP_MALFORMED_COMMAND_MESSAGE {
            Some(HandshakeFailure::ZmtpMalformedCommandMessage)
        } else if data == ZMQ_PROTOCOL_ERROR_ZMTP_MALFORMED_COMMAND_HELLO {
            Some(HandshakeFailure::ZmtpMalformedCommandHello)
        } else if data == ZMQ_PROTOCOL_ERROR_ZMTP_MALFORMED_COMMAND_INITIATE {
            Some(HandshakeFailure::ZmtpMalformedCommandInitiate)
        } else if data == ZMQ_PROTOCOL_ERROR_ZMTP_MALFORMED_COMMAND_ERROR {
            Some(HandshakeFailure::ZmtpMalformedCommandError)
        } else if data == ZMQ_PROTOCOL_ERROR_ZMTP_MALFORMED_COMMAND_READY {
            Some(HandshakeFailure::ZmtpMalformedCommandReady)
        } else if data == ZMQ_PROTOCOL_ERROR_ZMTP_MALFORMED_COMMAND_WELCOME {
            Some(HandshakeFailure::ZmtpMalformedCommandWelcome)
        } else if data == ZMQ_PROTOCOL_ERROR_ZMTP_INVALID_METADATA {
            Some(HandshakeFailure::ZmtpInvalidMetadata)
        } else if data == ZMQ_PROTOCOL_ERROR_ZMTP_CRYPTOGRAPHIC {
            Some(HandshakeFailure::ZmtpCryptographic)
        } else if data == ZMQ_PROTOCOL_ERROR_ZMTP_MECHANISM_MISMATCH {
            Some(HandshakeFailure::ZmtpMechanismMismatch)
        } else if data == ZMQ_PROTOCOL_ERROR_ZAP_UNSPECIFIED {
            Some(HandshakeFailure::ZapUnspecified)
        } else if data == ZMQ_PROTOCOL_ERROR_ZAP_MALFORMED_REPLY {
            Some(HandshakeFailure::ZapMalformedReply)
        } else if data == ZMQ_PROTOCOL_ERROR_ZAP_BAD_REQUEST_ID {
            Some(HandshakeFailure::ZapBadRequestId)
        } else if data == ZMQ_PROTOCOL_ERROR_ZAP_BAD_VERSION {
            Some(HandshakeFailure::ZapBadVersion)
        } else if data == ZMQ_PROTOCOL_ERROR_ZAP_INVALID_STATUS_CODE {
            Some(HandshakeFailure::ZapInvalidStatusCode)
        } else if data == ZMQ_PROTOCOL_ERROR_ZAP_INVALID_METADATA {
            Some(HandshakeFailure::ZapInvalidMetadata)
        } else {
            None
        }
    }

    /// The failure with code `data`; `None` for a code that names no failure.
    pub fn from_raw(data: u32) -> (r: Option<Self>)
        ensures
            r == Self::spec_from_raw(data),
            r matches Some(f) ==> f.code() == data,
    {
        if data == ZMQ_PROTOCOL_ERROR_ZMTP_UNSPECIFIED {
            Some(HandshakeFailure::ZmtpUnspecified)
        } else if data == ZMQ_PROTOCOL_ERROR_ZMTP_UNEXPECTED_COMMAND {
            Some(HandshakeFailure::ZmtpUnexpectedCommand)
        } else if data == ZMQ_PROTOCOL_ERROR_ZMTP_INVALID_SEQUENCE {
            Some(HandshakeFailure::ZmtpInvalidSequence)
        } else if data == ZMQ_PROTOCOL_ERROR_ZMTP_KEY_EXCHANGE {
            Some(HandshakeFailure::ZmtpKeyExchange)
        } else if data == ZMQ_PROTOCOL_ERROR_ZMTP_MALFORMED_COMMAND_UNSPECIFIED {
            Some(HandshakeFailure::ZmtpMalformedCommandUnspecified)
        } else if data == ZMQ_PROTOCOL_ERROR_ZMTP_MALFORMED_COMMAND_MESSAGE {
            Some(HandshakeFailure::ZmtpMalformedCommandMessage)
        } else if data == ZMQ_PROTOCOL_ERROR_ZMTP_MALFORMED_COMMAND_HELLO {
            Some(HandshakeFailure::ZmtpMalformedCommandHello)
        } else if data == ZMQ_PROTOCOL_ERROR_ZMTP_MALFORMED_COMMAND_INITIATE {
            Some(HandshakeFailure::ZmtpMalformedCommandInitiate)
        } else if data == ZMQ_PROTOCOL_ERROR_ZMTP_MALFORMED_COMMAND_ERROR {
            Some(HandshakeFailure::ZmtpMalformedCommandError)
        } else if data == ZMQ_PROTOCOL_ERROR_ZMTP_MALFORMED_COMMAND_READY {
            Some(HandshakeFailure::ZmtpMalformedCommandReady)
        } else if data == ZMQ_PROTOCOL_ERROR_ZMTP_MALFORMED_COMMAND_WELCOME {
            Some(HandshakeFailure::ZmtpMalformedCommandWelcome)
        } else if data == ZMQ_PROTOCOL_ERROR_ZMTP_INVALID_METADATA {
            Some(HandshakeFailure::ZmtpInvalidMetadata)
        } else if data == ZMQ_PROTOCOL_ERROR_ZMTP_CRYPTOGRAPHIC {
            Some(HandshakeFailure::ZmtpCryptographic)
        } else if data == ZMQ_PROTOCOL_ERROR_ZMTP_MECHANISM_MISMATCH {
            Some(HandshakeFailure::ZmtpMechanismMismatch)
        } else if data == ZMQ_PROTOCOL_ERROR_ZAP_UNSPECIFIED {
            Some(HandshakeFailure::ZapUnspecified)
        } else if data == ZMQ_PROTOCOL_ERROR_ZAP_MALFORMED_REPLY {
            Some(HandshakeFailure::ZapMalformedReply)
        } else if data == ZMQ_PROTOCOL_ERROR_ZAP_BAD_REQUEST_ID {
            Some(HandshakeFailure::ZapBadRequestId)
        } else if data == ZMQ_PROTOCOL_ERROR_ZAP_BAD_VERSION {
            Some(HandshakeFailure::ZapBadVersion)
        } else if data == ZMQ_PROTOCOL_ERROR_ZAP_INVALID_STATUS_CODE {
            Some(HandshakeFailure::ZapInvalidStatusCode)
        } else if data == ZMQ_PROTOCOL_ERROR_ZAP_INVALID_METADATA {
            Some(HandshakeFailure::ZapInvalidMetadata)
        } else {
            None
        }
    }

    /// The failure's code.
    pub fn to_raw(self) -> (r: u32)
        ensures
            r == self.code(),
            Self::spec_from_raw(r) == Some(self),
    {
        match self {
            HandshakeFailure::ZmtpUnspecified => ZMQ_PROTOCOL_ERROR_ZMTP_UNSPECIFIED,
            HandshakeFailure::ZmtpUnexpectedCommand => ZMQ_PROTOCOL_ERROR_ZMTP_UNEXPECTED_COMMAND,
            HandshakeFailure::ZmtpInvalidSequence => ZMQ_PROTOCOL_ERROR_ZMTP_INVALID_SEQUENCE,
            HandshakeFailure::ZmtpKeyExchange => ZMQ_PROTOCOL_ERROR_ZMTP_KEY_EXCHANGE,
            HandshakeFailure::ZmtpMalformedCommandUnspecified => ZMQ_PROTOCOL_ERROR_ZMTP_MALFORMED_COMMAND_UNSPECIFIED,
            HandshakeFailure::ZmtpMalformedCommandMessage => ZMQ_PROTOCOL_ERROR_ZMTP_MALFORMED_COMMAND_MESSAGE,
            HandshakeFailure::ZmtpMalformedCommandHello => ZMQ_PROTOCOL_ERROR_ZMTP_MALFORMED_COMMAND_HELLO,
            HandshakeFailure::ZmtpMalformedCommandInitiate => ZMQ_PROTOCOL_ERROR_ZMTP_MALFORMED_COMMAND_INITIATE,
            HandshakeFailure::ZmtpMalformedCommandError => ZMQ_PROTOCOL_ERROR_ZMTP_MALFORMED_COMMAND_ERROR,
            HandshakeFailure::ZmtpMalformedCommandReady => ZMQ_PROTOCOL_ERROR_ZMTP_MALFORMED_COMMAND_READY,
            HandshakeFailure::ZmtpMalformedCommandWelcome => ZMQ_PROTOCOL_ERROR_ZMTP_MALFORMED_COMMAND_WELCOME,
            HandshakeFailure::ZmtpInvalidMetadata => ZMQ_PROTOCOL_ERROR_ZMTP_INVALID_METADATA,
            HandshakeFailure::ZmtpCryptographic => ZMQ_PROTOCOL_ERROR_ZMTP_CRYPTOGRAPHIC,
            HandshakeFailure::ZmtpMechanismMismatch => ZMQ_PROTOCOL_ERROR_ZMTP_MECHANISM_MISMATCH,
            HandshakeFailure::ZapUnspecified => ZMQ_PROTOCOL_ERROR_ZAP_UNSPECIFIED,
            HandshakeFailure::ZapMalformedReply => ZMQ_PROTOCOL_ERROR_ZAP_MALFORMED_REPLY,
            HandshakeFailure::ZapBadRequestId => ZMQ_PROTOCOL_ERROR_ZAP_BAD_REQUEST_ID,
            HandshakeFailure::ZapBadVersion => ZMQ_PROTOCOL_ERROR_ZAP_BAD_VERSION,
            HandshakeFailure::ZapInvalidStatusCode => ZMQ_PROTOCOL_ERROR_ZAP_INVALID_STATUS_CODE,
            HandshakeFailure::ZapInvalidMetadata => ZMQ_PROTOCOL_ERROR_ZAP_INVALID_METADATA,
        }
    }
}

/// An event on one of a socket's connections. See "SUPPORTED EVENTS" in the
/// messaging library's `zmq_socket_monitor` manual page.
#[derive(Debug, Clone, Copy, PartialEq, Eq)]
pub enum SocketEvent {
    /// `ZMQ_EVENT_CONNECTED`
    Connected { fd: u32 },
    /// `ZMQ_EVENT_CONNECT_DELAYED`
    ConnectDelayed,
    /// `ZMQ_EVENT_CONNECT_RETRIED`
    ConnectRetried { interval: u32 },
    /// `ZMQ_EVENT_LISTENING`
    Listening { fd: u32 },
    /// `ZMQ_EVENT_BIND_FAILED`
    BindFailed { errno: u32 },
    /// `ZMQ_EVENT_ACCEPTED`
    Accepted { fd: u32 },
    /// `ZMQ_EVENT_ACCEPT_FAILED`
    AcceptFailed { errno: u32 },
    /// `ZMQ_EVENT_CLOSED`
    Closed { fd: u32 },
    /// `ZMQ_EVENT_CLOSE_FAILED`
    CloseFailed { errno: u32 },
    /// `ZMQ_EVENT_DISCONNECTED`
    Disconnected { fd: u32 },
    /// `ZMQ_EVENT_MONITOR_STOPPED`
    MonitorStopped,
    /// `ZMQ_EVENT_HANDSHAKE_FAILED_NO_DETAIL`
    HandshakeFailedNoDetail { fd: u32 },
    /// `ZMQ_EVENT_HANDSHAKE_SUCCEEDED`
    HandshakeSucceeded,
    /// `ZMQ_EVENT_HANDSHAKE_FAILED_PROTOCOL`
    HandshakeFailedProtocol { err: HandshakeFailure },
    /// `ZMQ_EVENT_HANDSHAKE_FAILED_AUTH`
    HandshakeFailedAuth { error_code: u32 },
    /// An event code this library does not know, with its data word.
    Unknown { event: u16, data: u32 },
}

impl SocketEvent {
    /// The event with code `event` and data word `data`: unknown codes give
    /// [`SocketEvent::Unknown`]; `None` where the data word of a protocol
    /// failure names no [`HandshakeFailure`].
    pub open spec fn spec_from_raw(event: u16, data: u32) -> Option<SocketEvent> {
        let code = event as u32;
        if code == ZMQ_EVENT_CONNECTED {
            Some(SocketEvent::Connected { fd: data })
        } else if code == ZMQ_EVENT_CONNECT_DELAYED {
            Some(SocketEvent::ConnectDelayed)
        } else if code == ZMQ_EVENT_CONNECT_RETRIED {
            Some(SocketEvent::ConnectRetried { interval: data })
        } else if code == ZMQ_EVENT_LISTENING {
            Some(SocketEvent::Listening { fd: data })
        } else if code == ZMQ_EVENT_BIND_FAILED {
            Some(SocketEvent::BindFailed { errno: data })
        } else if code == ZMQ_EVENT_ACCEPTED {
            Some(SocketEvent::Accepted { fd: data })
        } else if code == ZMQ_EVENT_ACCEPT_FAILED {
            Some(SocketEvent::AcceptFailed { errno: data })
        } else if code == ZMQ_EVENT_CLOSED {
            Some(SocketEvent::Closed { fd: data })
        } else if code == ZMQ_EVENT_CLOSE_FAILED {
            Some(SocketEvent::CloseFailed { errno: data })
        } else if code == ZMQ_EVENT_DISCONNECTED {
            Some(SocketEvent::Disconnected { fd: data })
        } else if code == ZMQ_EVENT_MONITOR_STOPPED {
            Some(SocketEvent::MonitorStopped)
        } else if code == ZMQ_EVENT_HANDSHAKE_FAILED_NO_DETAIL {
            Some(SocketEvent::HandshakeFailedNoDetail { fd: data })
        } else if code == ZMQ_EVENT_HANDSHAKE_SUCCEEDED {
            Some(SocketEvent::HandshakeSucceeded)
        } else if code == ZMQ_EVENT_HANDSHAKE_FAILED_PROTOCOL {
            match HandshakeFailure::spec_from_raw(data) {
                Some(err) => Some(SocketEvent::HandshakeFailedProtocol { err }),
                None => None,
            }
        } else if code == ZMQ_EVENT_HANDSHAKE_FAILED_AUTH {
            Some(SocketEvent::HandshakeFailedAuth { error_code: data })
        } else {
            Some(SocketEvent::Unknown { event, data })
        }
    }

    /// Whether `event` is one of the codes this library knows.
    pub open spec fn is_known_code(event: u16) -> bool {
        event as u32 == ZMQ_EVENT_CONNECTED
        || event as u32 == ZMQ_EVENT_CONNECT_DELAYED
        || event as u32 == ZMQ_EVENT_CONNECT_RETRIED
        || event as u32 == ZMQ_EVENT_LISTENING
        || event as u32 == ZMQ_EVENT_BIND_FAILED
        || event as u32 == ZMQ_EVENT_ACCEPTED
        || event as u32 == ZMQ_EVENT_ACCEPT_FAILED
        || event as u32 == ZMQ_EVENT_CLOSED
        || event as u32 == ZMQ_EVENT_CLOSE_FAILED
        || event as u32 == ZMQ_EVENT_DISCONNECTED
        || event as u32 == ZMQ_EVENT_MONITOR_STOPPED
        || event as u32 == ZMQ_EVENT_HANDSHAKE_FAILED_NO_DETAIL
        || event as u32 == ZMQ_EVENT_HANDSHAKE_SUCCEEDED
        || event as u32 == ZMQ_EVENT_HANDSHAKE_FAILED_PROTOCOL
        || event as u32 == ZMQ_EVENT_HANDSHAKE_FAILED_AUTH
    }

    /// The event's code, and its data word where the event carries one.
    pub open spec fn spec_to_raw(self) -> (u16, Option<u32>) {
        match self {
            SocketEvent::Connected { fd } => (ZMQ_EVENT_CONNECTED as u16, Some(fd)),
            SocketEvent::ConnectDelayed => (ZMQ_EVENT_CONNECT_DELAYED as u16, None),
            SocketEvent::ConnectRetried { interval } => (ZMQ_EVENT_CONNECT_RETRIED as u16, Some(interval)),
            SocketEvent::Listening { fd } => (ZMQ_EVENT_LISTENING as u16, Some(fd)),
            SocketEvent::BindFailed { errno } => (ZMQ_EVENT_BIND_FAILED as u16, Some(errno)),
            SocketEvent::Accepted { fd } => (ZMQ_EVENT_ACCEPTED as u16, Some(fd)),
            SocketEvent::AcceptFailed { errno } => (ZMQ_EVENT_ACCEPT_FAILED as u16, Some(errno)),
            SocketEvent::Closed { fd } => (ZMQ_EVENT_CLOSED as u16, Some(fd)),
            SocketEvent::CloseFailed { errno } => (ZMQ_EVENT_CLOSE_FAILED as u16, Some(errno)),
            SocketEvent::Disconnected { fd } => (ZMQ_EVENT_DISCONNECTED as u16, Some(fd)),
            SocketEvent::MonitorStopped => (ZMQ_EVENT_MONITOR_STOPPED as u16, None),
            SocketEvent::HandshakeFailedNoDetail { fd } => (ZMQ_EVENT_HANDSHAKE_FAILED_NO_DETAIL as u16, Some(fd)),
            SocketEvent::HandshakeSucceeded => (ZMQ_EVENT_HANDSHAKE_SUCCEEDED as u16, None),
            SocketEvent::HandshakeFailedProtocol { err } => (ZMQ_EVENT_HANDSHAKE_FAILED_PROTOCOL as u16, Some(err.code())),
            SocketEvent::HandshakeFailedAuth { error_code } => (ZMQ_EVENT_HANDSHAKE_FAILED_AUTH as u16, Some(error_code)),
            SocketEvent::Unknown { event, data } => (event, Some(data)),
        }
    }

    /// The event with code `event` and data word `data`; `None` where the data
    /// word of a protocol failure names no [`HandshakeFailure`].
    pub fn from_raw(event: u16, data: u32) -> (r: Option<Self>)
        ensures
            r == Self::spec_from_raw(event, data),
    {
        let code = event as u32;
        if code == ZMQ_EVENT_CONNECTED {
            Some(SocketEvent::Connected { fd: data })
        } else if code == ZMQ_EVENT_CONNECT_DELAYED {
            Some(SocketEvent::ConnectDelayed)
        } else if code == ZMQ_EVENT_CONNECT_RETRIED {
            Some(SocketEvent::ConnectRetried { interval: data })
        } else if code == ZMQ_EVENT_LISTENING {
            Some(SocketEvent::Listening { fd: data })
        } else if code == ZMQ_EVENT_BIND_FAILED {
            Some(SocketEvent::BindFailed { errno: data })
        } else if code == ZMQ_EVENT_ACCEPTED {
            Some(SocketEvent::Accepted { fd: data })
        } else if code == ZMQ_EVENT_ACCEPT_FAILED {
            Some(SocketEvent::AcceptFailed { errno: data })
        } else if code == ZMQ_EVENT_CLOSED {
            Some(SocketEvent::Closed { fd: data })
        } else if code == ZMQ_EVENT_CLOSE_FAILED {
            Some(SocketEvent::CloseFailed { errno: data })
        } else if code == ZMQ_EVENT_DISCONNECTED {
            Some(SocketEvent::Disconnected { fd: data })
        } else if code == ZMQ_EVENT_MONITOR_STOPPED {
            Some(SocketEvent::MonitorStopped)
        } else if code == ZMQ_EVENT_HANDSHAKE_FAILED_NO_DETAIL {
            Some(SocketEvent::HandshakeFailedNoDetail { fd: data })
        } else if code == ZMQ_EVENT_HANDSHAKE_SUCCEEDED {
            Some(SocketEvent::HandshakeSucceeded)
        } else if code == ZMQ_EVENT_HANDSHAKE_FAILED_PROTOCOL {
            match HandshakeFailure::from_raw(data) {
                Some(err) => Some(SocketEvent::HandshakeFailedProtocol { err }),
                None => None,
            }
        } else if code == ZMQ_EVENT_HANDSHAKE_FAILED_AUTH {
            Some(SocketEvent::HandshakeFailedAuth { error_code: data })
        } else {
            Some(SocketEvent::Unknown { event, data })
        }
    }

    /// The event's code, and its data word where the event carries one.
    pub fn to_raw(self) -> (r: (u16, Option<u32>))
        ensures
            r == self.spec_to_raw(),
    {
        match self {
            SocketEvent::Connected { fd } => (ZMQ_EVENT_CONNECTED as u16, Some(fd)),
            SocketEvent::ConnectDelayed => (ZMQ_EVENT_CONNECT_DELAYED as u16, None),
            SocketEvent::ConnectRetried { interval } => (ZMQ_EVENT_CONNECT_RETRIED as u16, Some(interval)),
            SocketEvent::Listening { fd } => (ZMQ_EVENT_LISTENING as u16, Some(fd)),
            SocketEvent::BindFailed { errno } => (ZMQ_EVENT_BIND_FAILED as u16, Some(errno)),
            SocketEvent::Accepted { fd } => (ZMQ_EVENT_ACCEPTED as u16, Some(fd)),
            SocketEvent::AcceptFailed { errno } => (ZMQ_EVENT_ACCEPT_FAILED as u16, Some(errno)),
            SocketEvent::Closed { fd } => (ZMQ_EVENT_CLOSED as u16, Some(fd)),
            SocketEvent::CloseFailed { errno } => (ZMQ_EVENT_CLOSE_FAILED as u16, Some(errno)),
            SocketEvent::Disconnected { fd } => (ZMQ_EVENT_DISCONNECTED as u16, Some(fd)),
            SocketEvent::MonitorStopped => (ZMQ_EVENT_MONITOR_STOPPED as u16, None),
            SocketEvent::HandshakeFailedNoDetail { fd } => (ZMQ_EVENT_HANDSHAKE_FAILED_NO_DETAIL as u16, Some(fd)),
            SocketEvent::HandshakeSucceeded => (ZMQ_EVENT_HANDSHAKE_SUCCEEDED as u16, None),
            SocketEvent::HandshakeFailedProtocol { err } => (ZMQ_EVENT_HANDSHAKE_FAILED_PROTOCOL as u16, Some(err.to_raw())),
            SocketEvent::HandshakeFailedAuth { error_code } => (ZMQ_EVENT_HANDSHAKE_FAILED_AUTH as u16, Some(error_code)),
            SocketEvent::Unknown { event, data } => (event, Some(data)),
        }
    }
}

/// Why a monitor message could not be decoded.
#[derive(Debug, Clone, Copy, PartialEq, Eq)]
pub enum MonitorMessageError {
    /// The message had this many frames instead of two.
    InvalidMutlipartLength(usize),
    /// The event frame had this many bytes instead of six.
    InvalidEventFrameLength(usize),
    /// The event code and data word do not make an event.
    InvalidEventData(u16, u32),
}

impl MonitorMessageError {
    /// What the error says.
    pub open spec fn text(self) -> Seq<char> {
        match self {
            MonitorMessageError::InvalidMutlipartLength(len) => "invalid multipart message length: "@
                + decimal(len as nat) + " (expected 2)"@,
            MonitorMessageError::InvalidEventFrameLength(len) => "invalid event frame length: "@
                + decimal(len as nat) + " (expected 6)"@,
            MonitorMessageError::InvalidEventData(event_type, event_data) => "invalid event data "@
                + decimal(event_data as nat) + " for event "@ + decimal(event_type as nat),
        }
    }

    /// What the error says.
    pub fn to_string(&self) -> (r: String)
        ensures
            r@ == self.text(),
    {
        let mut s = String::new();
        match self {
            MonitorMessageError::InvalidMutlipartLength(len) => {
                push_str(&mut s, "invalid multipart message length: ");
                push_decimal(&mut s, *len as u64);
                push_str(&mut s, " (expected 2)");
            },
            MonitorMessageError::InvalidEventFrameLength(len) => {
                push_str(&mut s, "invalid event frame length: ");
                push_decimal(&mut s, *len as u64);
                push_str(&mut s, " (expected 6)");
            },
            MonitorMessageError::InvalidEventData(event_type, event_data) => {
                push_str(&mut s, "invalid event data ");
                push_decimal(&mut s, *event_data as u64);
                push_str(&mut s, " for event ");
                push_decimal(&mut s, *event_type as u64);
            },
        }
        s
    }
}

/// Length of the event frame of a monitor message.
pub const EVENT_FRAME_LEN: usize = 6;

/// The little-endian reading of two bytes.
pub open spec fn le_u16(b: Seq<u8>) -> int {
    b[0] + 0x100 * b[1]
}

/// The big-endian reading of two bytes.
pub open spec fn be_u16(b: Seq<u8>) -> int {
    b[1] + 0x100 * b[0]
}

/// The little-endian reading of four bytes.
pub open spec fn le_u32(b: Seq<u8>) -> int {
    b[0] + 0x100 * b[1] + 0x1_0000 * b[2] + 0x100_0000 * b[3]
}

/// The big-endian reading of four bytes.
pub open spec fn be_u32(b: Seq<u8>) -> int {
    b[3] + 0x100 * b[2] + 0x1_0000 * b[1] + 0x100_0000 * b[0]
}

/// `x` is what two bytes read as in the machine's byte order, which is little- or
/// big-endian.
pub open spec fn native_u16(b: Seq<u8>, x: u16) -> bool {
    x == le_u16(b) || x == be_u16(b)
}

/// `x` is what four bytes read as in the machine's byte order, which is little- or
/// big-endian.
pub open spec fn native_u32(b: Seq<u8>, x: u32) -> bool {
    x == le_u32(b) || x == be_u32(b)
}

/// Relies on `u16::from_ne_bytes`: the two bytes read in the machine's byte order.
#[verifier::external_body]
fn u16_from_native_bytes(b: [u8; 2]) -> (r: u16)
    ensures
        native_u16(b@, r),
{
    u16::from_ne_bytes(b)
}

/// Relies on `u32::from_ne_bytes`: the four bytes read in the machine's byte order.
#[verifier::external_body]
fn u32_from_native_bytes(b: [u8; 4]) -> (r: u32)
    ensures
        native_u32(b@, r),
{
    u32::from_ne_bytes(b)
}

/// What an event frame with code `event` and data word `data` decodes to.
pub open spec fn event_outcome(event: u16, data: u32) -> Result<SocketEvent, MonitorMessageError> {
    match SocketEvent::spec_from_raw(event, data) {
        Some(e) => Ok(e),
        None => Err(MonitorMessageError::InvalidEventData(event, data)),
    }
}

/// What the event frame `frame` decodes to may be `r`: a frame of the wrong
/// length is an error; otherwise its code and data word, read in the machine's
/// byte order, decide.
pub open spec fn event_frame_outcome(frame: Seq<u8>, r: Result<SocketEvent, MonitorMessageError>) -> bool {
    if frame.len() != EVENT_FRAME_LEN {
        r == Err::<SocketEvent, MonitorMessageError>(
            MonitorMessageError::InvalidEventFrameLength(frame.len() as usize),
        )
    } else {
        exists|event: u16, data: u32|
            native_u16(frame.take(2), event) && native_u32(frame.subrange(2, 6), data) && r
                == event_outcome(event, data)
    }
}

impl SocketEvent {
    /// Decodes the event frame of a monitor message.
    pub fn parse_from(frame: &[u8]) -> (r: Result<Self, MonitorMessageError>)
        ensures
            event_frame_outcome(frame@, r),
    {
        if frame.len() != EVENT_FRAME_LEN {
            return Err(MonitorMessageError::InvalidEventFrameLength(frame.len()));
        }
        let code_bytes: [u8; 2] = [frame[0], frame[1]];
        let data_bytes: [u8; 4] = [frame[2], frame[3], frame[4], frame[5]];
        assert(code_bytes@ =~= frame@.take(2));
        assert(data_bytes@ =~= frame@.subrange(2, 6));
        let event = u16_from_native_bytes(code_bytes);
        let data = u32_from_native_bytes(data_bytes);
        let r = match SocketEvent::from_raw(event, data) {
            Some(e) => Ok(e),
            None => Err(MonitorMessageError::InvalidEventData(event, data)),
        };
        assert(native_u16(frame@.take(2), event) && native_u32(frame@.subrange(2, 6), data) && r
            == event_outcome(event, data));
        r
    }
}

/// A socket event and the address of the endpoint it is about.
#[derive(Debug, Clone, PartialEq, Eq)]
pub struct MonitorMessage {
    /// The event.
    pub event: SocketEvent,
    /// The endpoint's address, as the messaging library reports it.
    pub source_url: String,
}

impl MonitorMessage {
    /// Decodes a monitor message: two frames, the event and the endpoint's address.
    pub fn parse_from(msg: &[&[u8]]) -> (r: Result<Self, MonitorMessageError>)
        ensures
            msg@.len() != 2 ==> r == Err::<Self, MonitorMessageError>(
                MonitorMessageError::InvalidMutlipartLength(msg@.len() as usize),
            ),
            msg@.len() == 2 ==> match r {
                Ok(m) => event_frame_outcome(msg@[0]@, Ok(m.event)) && m.source_url@ == utf8_lossy(
                    msg@[1]@,
                ),
                Err(e) => event_frame_outcome(msg@[0]@, Err(e)),
            },
            msg@.len() == 2 && msg@[0]@.len() < EVENT_FRAME_LEN ==> r == Err::<
                Self,
                MonitorMessageError,
            >(MonitorMessageError::InvalidEventFrameLength(msg@[0]@.len() as usize)),
    {
        if msg.len() != 2 {
            return Err(MonitorMessageError::InvalidMutlipartLength(msg.len()));
        }
        let event = match SocketEvent::parse_from(msg[0]) {
            Ok(event) => event,
            Err(e) => {
                return Err(e);
            },
        };
        Ok(MonitorMessage { event, source_url: string_from_utf8_lossy(msg[1]) })
    }
}

/// Decoding an event's code and data word gives the event back, for every event
/// but an [`SocketEvent::Unknown`] whose code is a known one; events without a data
/// word decode so whatever the word.
pub proof fn lemma_event_round_trip(e: SocketEvent, data: u32)
    requires
        e matches SocketEvent::Unknown { event, .. } ==> !SocketEvent::is_known_code(event),
        e.spec_to_raw().1 matches Some(d) ==> d == data,
    ensures
        SocketEvent::spec_from_raw(e.spec_to_raw().0, data) == Some(e),
{
    match e {
        SocketEvent::HandshakeFailedProtocol { err } => {
            assert(HandshakeFailure::spec_from_raw(err.code()) == Some(err));
        },
        _ => {},
    }
}

} // verus!
