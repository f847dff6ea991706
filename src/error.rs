//! The errors that decoding and receiving can produce.

use vstd::prelude::*;

use crate::monitor::MonitorMessageError;
use crate::framing::DATA_MAX_LEN;
use crate::raw::SEQUENCE_LEN;
use crate::text::{decimal, hex_byte, push_char, push_decimal, push_hex_byte, push_str};
use crate::topic::UnknownTopicError;

verus! {

/// Everything that can go wrong between a frame on the wire and a typed message.
///
/// Errors are per message: none of them closes a subscription.
#[derive(Debug)]
pub enum NotificationError {
    /// A message had this many frames instead of three.
    InvalidMutlipartLength(usize),
    /// The first frame is not one of the five topic names.
    UnknownTopic(UnknownTopicError),
    /// The data frame is longer than [`DATA_MAX_LEN`](crate::DATA_MAX_LEN).
    InvalidDataLength(usize),
    /// The sequence frame has this many bytes instead of four.
    InvalidSequenceLength(usize),
    /// A `sequence` payload has a length that does not fit its label.
    InvalidSequenceMessageLength(usize),
    /// A `sequence` payload has a label other than `C`, `D`, `A` and `R`.
    InvalidSequenceMessageLabel(u8),
    /// A hash payload has this many bytes instead of 32.
    Invalid256BitHashLength(usize),
    /// The bitcoin crate could not decode a block or a transaction.
    BitcoinDeserialization(bitcoin::consensus::encode::Error),
    /// The messaging library reported an error.
    Zmq(zmq::Error),
    /// A monitor message could not be decoded.
    MonitorMessage(MonitorMessageError),
    /// The endpoint with this address disconnected; ends a checked stream.
    Disconnected(String),
}

/// The lower-level error that a [`NotificationError`] wraps.
#[derive(Debug)]
pub enum ErrorSource<'a> {
    /// The unknown topic.
    UnknownTopic(&'a UnknownTopicError),
    /// The bitcoin crate's decoding error.
    BitcoinDeserialization(&'a bitcoin::consensus::encode::Error),
    /// The messaging library's error.
    Zmq(&'a zmq::Error),
    /// The monitor message's error.
    MonitorMessage(&'a MonitorMessageError),
}

/// Relies on the `Display` of the bitcoin crate's decoding error.
#[verifier::external_body]
fn encode_error_text(e: &bitcoin::consensus::encode::Error) -> String {
    e.to_string()
}

/// Relies on the `Display` of the messaging library's error.
#[verifier::external_body]
fn zmq_error_text(e: &zmq::Error) -> String {
    e.to_string()
}

impl NotificationError {
    /// What the error says, where this library writes all of it; the errors of
    /// the bitcoin crate and of the messaging library add their own text after a
    /// fixed prefix.
    pub open spec fn known_text(&self) -> Option<Seq<char>> {
        match *self {
            NotificationError::InvalidMutlipartLength(len) => Some(
                "invalid multipart message length: "@ + decimal(len as nat) + " (expected 3)"@,
            ),
            NotificationError::UnknownTopic(e) => Some(e.text()),
            NotificationError::InvalidDataLength(len) => Some(
                "invalid data length: "@ + decimal(len as nat) + " (expected at most "@ + decimal(
                    DATA_MAX_LEN as nat,
                ) + ")"@,
            ),
            NotificationError::InvalidSequenceLength(len) => Some(
                "invalid sequence length: "@ + decimal(len as nat) + " (expected "@ + decimal(
                    SEQUENCE_LEN as nat,
                ) + ")"@,
            ),
            NotificationError::InvalidSequenceMessageLength(len) => Some(
                "invalid message length "@ + decimal(len as nat) + " of message type 'sequence'"@,
            ),
            NotificationError::InvalidSequenceMessageLabel(label) => Some(
                "invalid label '"@ + seq![label as char] + "' (0x"@ + hex_byte(label)
                    + ") of message type 'sequence'"@,
            ),
            NotificationError::Invalid256BitHashLength(len) => Some(
                "invalid hash length: "@ + decimal(len as nat) + " (expected 32)"@,
            ),
            NotificationError::MonitorMessage(e) => Some(
                "unable to parse monitor message: "@ + e.text(),
            ),
            NotificationError::Disconnected(url) => Some("disconnected from "@ + url@),
            _ => None,
        }
    }

    /// What the error says.
    pub fn to_string(&self) -> (r: String)
        ensures
            self.known_text() matches Some(t) ==> r@ == t,
            self is BitcoinDeserialization ==> "bitcoin consensus deserialization error: "@.is_prefix_of(
                r@,
            ),
            self is Zmq ==> "ZMQ Error: "@.is_prefix_of(r@),
    {
        let mut s = String::new();
        match self {
            NotificationError::InvalidMutlipartLength(len) => {
                push_str(&mut s, "invalid multipart message length: ");
                push_decimal(&mut s, *len as u64);
                push_str(&mut s, " (expected 3)");
            },
            NotificationError::UnknownTopic(e) => {
                push_str(&mut s, e.to_string().as_str());
            },
            NotificationError::InvalidDataLength(len) => {
                push_str(&mut s, "invalid data length: ");
                push_decimal(&mut s, *len as u64);
                push_str(&mut s, " (expected at most ");
                push_decimal(&mut s, DATA_MAX_LEN as u64);
                push_str(&mut s, ")");
            },
            NotificationError::InvalidSequenceLength(len) => {
                push_str(&mut s, "invalid sequence length: ");
                push_decimal(&mut s, *len as u64);
                push_str(&mut s, " (expected ");
                push_decimal(&mut s, SEQUENCE_LEN as u64);
                push_str(&mut s, ")");
            },
            NotificationError::InvalidSequenceMessageLength(len) => {
                push_str(&mut s, "invalid message length ");
                push_decimal(&mut s, *len as u64);
                push_str(&mut s, " of message type 'sequence'");
            },
            NotificationError::InvalidSequenceMessageLabel(label) => {
                push_str(&mut s, "invalid label '");
                push_char(&mut s, *label as char);
                push_str(&mut s, "' (0x");
                push_hex_byte(&mut s, *label);
                push_str(&mut s, ") of message type 'sequence'");
            },
            NotificationError::Invalid256BitHashLength(len) => {
                push_str(&mut s, "invalid hash length: ");
                push_decimal(&mut s, *len as u64);
                push_str(&mut s, " (expected 32)");
            },
            NotificationError::BitcoinDeserialization(e) => {
                push_str(&mut s, "bitcoin consensus deserialization error: ");
                let ghost head = s@;
                push_str(&mut s, encode_error_text(e).as_str());
                assert(head.is_prefix_of(s@)) by {
                    assert(s@.take(head.len() as int) =~= head);
                }
            },
            NotificationError::Zmq(e) => {
                push_str(&mut s, "ZMQ Error: ");
                let ghost head = s@;
                push_str(&mut s, zmq_error_text(e).as_str());
                assert(head.is_prefix_of(s@)) by {
                    assert(s@.take(head.len() as int) =~= head);
                }
            },
            NotificationError::MonitorMessage(e) => {
                push_str(&mut s, "unable to parse monitor message: ");
                push_str(&mut s, e.to_string().as_str());
            },
            NotificationError::Disconnected(url) => {
                push_str(&mut s, "disconnected from ");
                push_str(&mut s, url.as_str());
            },
        }
        s
    }

    /// The error this one wraps, if it wraps one.
    pub fn source(&self) -> (r: Option<ErrorSource<'_>>)
        ensures
            match *self {
                NotificationError::UnknownTopic(e) => r == Some(ErrorSource::UnknownTopic(&e)),
                NotificationError::BitcoinDeserialization(e) => r == Some(
                    ErrorSource::BitcoinDeserialization(&e),
                ),
                NotificationError::Zmq(e) => r == Some(ErrorSource::Zmq(&e)),
                NotificationError::MonitorMessage(e) => r == Some(ErrorSource::MonitorMessage(&e)),
                _ => r is None,
            },
    {
        match self {
            NotificationError::UnknownTopic(e) => Some(ErrorSource::UnknownTopic(e)),
            NotificationError::BitcoinDeserialization(e) => Some(ErrorSource::BitcoinDeserialization(e)),
            NotificationError::Zmq(e) => Some(ErrorSource::Zmq(e)),
            NotificationError::MonitorMessage(e) => Some(ErrorSource::MonitorMessage(e)),
            _ => None,
        }
    }
}

/// Result with this crate's [`NotificationError`].
pub type Result<T> = core::result::Result<T, NotificationError>;

} // verus!
