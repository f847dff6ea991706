//! Typed decoding of Bitcoin Core's publish/subscribe notifications.
//!
//! The library turns the multipart frames that Bitcoin Core publishes on its
//! `hashblock`, `hashtx`, `rawblock`, `rawtx` and `sequence` channels into typed
//! messages and back, decodes socket-monitor events, and holds the decisions of
//! the receive loop and of the handshake wait as small state machines.

mod bytes;
mod consensus;
mod error;
mod framing;
mod handshake;
mod hash;
mod message;
pub mod monitor;
mod raw;
mod sequence;
mod text;
mod topic;
mod transport;

pub use crate::consensus::{decodes_as_block, decodes_as_transaction};
pub use crate::error::{ErrorSource, NotificationError, Result};
pub use crate::framing::{receive_outcome, FrameAssembler, DATA_MAX_LEN};
pub use crate::handshake::{
    break_on_err, handshake_delta, lemma_handshake_wait, net_handshakes, pending_after,
    pending_step, reaches, CheckedItem, DisconnectGuard, HandshakeWait, SocketMessage, Timeout,
};
pub use crate::hash::{BlockHash, Txid};
pub use crate::message::{
    content_outcome, frames_of, lemma_message_round_trip, message_outcome, raw_outcome, Message,
    MessageContent, HASH_LEN,
};
pub use crate::monitor::{
    HandshakeFailure, MonitorMessage, MonitorMessageError, SocketEvent, EVENT_FRAME_LEN,
};
pub use crate::raw::{frames_error, frames_valid, ByteBuffer, RawMessage, SEQUENCE_LEN};
pub use crate::sequence::{
    lemma_sequence_round_trip, SequenceMessage, BLOCK_EVENT_LEN, MEMPOOL_EVENT_LEN,
};
pub use crate::text::{ascii, decimal, digit, hex, hex_byte, hex_digit, utf8_lossy};
pub use crate::topic::{Topic, UnknownTopicError, TOPIC_CAPTURE_LEN};
