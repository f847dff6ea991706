//! Typed messages: what each of the five topics carries, and the codec between
//! three frames and a message.

use vstd::bytes::*;
use vstd::prelude::*;

use crate::consensus::{
    decodes_as_block, decodes_as_transaction, deserialize_block, deserialize_transaction,
    block_hash_of, serialize_block, serialize_transaction, txid_of,
};
use crate::text::{decimal, push_decimal, push_str};
use crate::error::NotificationError;
use crate::hash::{lemma_hash_bytes_injective, lemma_reverse_reverse, push_reversed, reversed_array, BlockHash, Txid};
use crate::raw::{frames_error, frames_valid, ByteBuffer, RawMessage, SEQUENCE_LEN};
use crate::sequence::{lemma_sequence_round_trip, SequenceMessage};
use crate::topic::{lemma_wire_distinct, Topic};

verus! {

/// Length of the data frame of the hash topics.
pub const HASH_LEN: usize = 32;

/// Content and topic of a message.
#[derive(Debug, Clone, PartialEq, Eq)]
pub enum MessageContent {
    /// Topic [`HashBlock`](Topic::HashBlock): the chain tip changed; the hash of the
    /// new block.
    BlockHash(BlockHash),
    /// Topic [`HashTx`](Topic::HashTx): a transaction entered the mempool or a
    /// block; its id.
    Txid(Txid),
    /// Topic [`RawBlock`](Topic::RawBlock): the chain tip changed; the new block.
    Block(bitcoin::Block),
    /// Topic [`RawTx`](Topic::RawTx): a transaction entered the mempool or a
    /// block; the transaction.
    Tx(bitcoin::Transaction),
    /// Topic [`Sequence`](Topic::Sequence): a chain or mempool event.
    Sequence(SequenceMessage),
}

/// What decoding the data frame `data` of a message on `topic` gives: `r` is
/// the outcome the codec owes.
pub open spec fn content_outcome(
    topic: Topic,
    data: Seq<u8>,
    r: Result<MessageContent, NotificationError>,
) -> bool {
    match topic {
        Topic::HashBlock => if data.len() != HASH_LEN {
            r == Err::<MessageContent, NotificationError>(
                NotificationError::Invalid256BitHashLength(data.len() as usize),
            )
        } else {
            r matches Ok(MessageContent::BlockHash(h)) && h.bytes() == data.reverse()
        },
        Topic::HashTx => if data.len() != HASH_LEN {
            r == Err::<MessageContent, NotificationError>(
                NotificationError::Invalid256BitHashLength(data.len() as usize),
            )
        } else {
            r matches Ok(MessageContent::Txid(h)) && h.bytes() == data.reverse()
        },
        Topic::RawBlock => if decodes_as_block(data) {
            r matches Ok(MessageContent::Block(_))
        } else {
            r matches Err(NotificationError::BitcoinDeserialization(_))
        },
        Topic::RawTx => if decodes_as_transaction(data) {
            r matches Ok(MessageContent::Tx(_))
        } else {
            r matches Err(NotificationError::BitcoinDeserialization(_))
        },
        Topic::Sequence => match SequenceMessage::wire_error(data) {
            Some(e) => r == Err::<MessageContent, NotificationError>(e),
            None => r matches Ok(MessageContent::Sequence(s)) && s.wire() == data,
        },
    }
}

impl MessageContent {
    /// The topic that carries this content.
    pub open spec fn spec_topic(self) -> Topic {
        match self {
            MessageContent::BlockHash(..) => Topic::HashBlock,
            MessageContent::Txid(..) => Topic::HashTx,
            MessageContent::Block(..) => Topic::RawBlock,
            MessageContent::Tx(..) => Topic::RawTx,
            MessageContent::Sequence(..) => Topic::Sequence,
        }
    }

    /// The data frame of this content, where this library defines it: hashes are
    /// sent reversed, `sequence` events as [`SequenceMessage::wire`]. Blocks and
    /// transactions are sent in the bitcoin crate's consensus encoding.
    pub open spec fn known_wire(self) -> Option<Seq<u8>> {
        match self {
            MessageContent::BlockHash(h) => Some(h.bytes().reverse()),
            MessageContent::Txid(h) => Some(h.bytes().reverse()),
            MessageContent::Sequence(s) => Some(s.wire()),
            _ => None,
        }
    }

    /// Returns the topic of this content.
    pub fn topic(&self) -> (r: Topic)
        ensures
            r == self.spec_topic(),
    {
        match self {
            MessageContent::BlockHash(..) => Topic::HashBlock,
            MessageContent::Txid(..) => Topic::HashTx,
            MessageContent::Block(..) => Topic::RawBlock,
            MessageContent::Tx(..) => Topic::RawTx,
            MessageContent::Sequence(..) => Topic::Sequence,
        }
    }

    /// Serializes the data frame of this content (no topic and sequence).
    pub fn serialize_data_to_vec(&self) -> (r: Vec<u8>)
        ensures
            self.known_wire() matches Some(w) ==> r@ == w,
    {
        match self {
            MessageContent::BlockHash(blockhash) => {
                let mut out: Vec<u8> = Vec::with_capacity(HASH_LEN);
                push_reversed(&mut out, &blockhash.0);
                out
            },
            MessageContent::Txid(txid) => {
                let mut out: Vec<u8> = Vec::with_capacity(HASH_LEN);
                push_reversed(&mut out, &txid.0);
                out
            },
            MessageContent::Block(block) => serialize_block(block),
            MessageContent::Tx(tx) => serialize_transaction(tx),
            MessageContent::Sequence(sm) => sm.serialize_to_vec(),
        }
    }

    /// Decodes the data frame of a raw message according to its topic.
    pub fn try_from_raw_message<Bytes: ByteBuffer>(message: RawMessage<Bytes>) -> (r: Result<
        Self,
        NotificationError,
    >)
        ensures
            content_outcome(message.spec_topic(), message.spec_data(), r),
            (message.spec_topic() == Topic::HashBlock || message.spec_topic() == Topic::HashTx)
                && message.spec_data().len() != HASH_LEN ==> r == Err::<Self, NotificationError>(
                NotificationError::Invalid256BitHashLength(message.spec_data().len() as usize),
            ),
    {
        let topic = message.topic();
        let data = message.data_as_bytes();
        match topic {
            Topic::HashBlock => {
                if data.len() != HASH_LEN {
                    return Err(NotificationError::Invalid256BitHashLength(data.len()));
                }
                Ok(MessageContent::BlockHash(BlockHash::from_byte_array(reversed_array(data))))
            },
            Topic::HashTx => {
                if data.len() != HASH_LEN {
                    return Err(NotificationError::Invalid256BitHashLength(data.len()));
                }
                Ok(MessageContent::Txid(Txid::from_byte_array(reversed_array(data))))
            },
            Topic::RawBlock => match deserialize_block(data) {
                Ok(block) => Ok(MessageContent::Block(block)),
                Err(e) => Err(NotificationError::BitcoinDeserialization(e)),
            },
            Topic::RawTx => match deserialize_transaction(data) {
                Ok(tx) => Ok(MessageContent::Tx(tx)),
                Err(e) => Err(NotificationError::BitcoinDeserialization(e)),
            },
            Topic::Sequence => match SequenceMessage::from_byte_slice(data) {
                Ok(sm) => Ok(MessageContent::Sequence(sm)),
                Err(e) => Err(e),
            },
        }
    }
}

/// A message: its content, and the sequence number of its topic.
#[derive(Debug, Clone, PartialEq, Eq)]
pub struct Message {
    /// What the message carries.
    pub content: MessageContent,
    /// Counts the messages of one topic from one publisher, starting at 0. It is
    /// no order across topics or publishers.
    pub sequence: u32,
}

/// The byte strings of the frames `mp`.
pub open spec fn frames_of(mp: Seq<&[u8]>) -> Seq<Seq<u8>> {
    mp.map_values(|f: &[u8]| f@)
}

/// What decoding the frames `frames` gives: `r` is the outcome the codec owes.
/// The frame count is checked first, then the topic, then the sequence frame,
/// then the data frame.
pub open spec fn message_outcome(frames: Seq<Seq<u8>>, r: Result<Message, NotificationError>) -> bool {
    if frames.len() != 3 {
        r == Err::<Message, NotificationError>(
            NotificationError::InvalidMutlipartLength(frames.len() as usize),
        )
    } else if !frames_valid(frames[0], frames[2]) {
        r matches Err(e) && frames_error(frames[0], frames[2], e)
    } else {
        raw_outcome(Topic::parse(frames[0])->0, frames[1], spec_u32_from_le_bytes(frames[2]), r)
    }
}

/// What decoding a raw message with these parts gives.
pub open spec fn raw_outcome(
    topic: Topic,
    data: Seq<u8>,
    sequence: u32,
    r: Result<Message, NotificationError>,
) -> bool {
    match r {
        Ok(m) => m.sequence == sequence && content_outcome(topic, data, Ok(m.content)),
        Err(e) => content_outcome(topic, data, Err(e)),
    }
}

impl Message {
    /// The three frames of this message, where this library defines its data frame
    /// (all contents but blocks and transactions).
    pub open spec fn known_frames(self) -> Option<Seq<Seq<u8>>> {
        match self.content.known_wire() {
            Some(w) => Some(seq![self.content.spec_topic().wire(), w, spec_u32_to_le_bytes(self.sequence)]),
            None => None,
        }
    }

    /// The text of the message, where its content's text is `content`.
    pub open spec fn text_with(self, content: Seq<char>) -> Seq<char> {
        let kind = match self.content {
            MessageContent::BlockHash(..) => "HashBlock("@,
            MessageContent::Txid(..) => "HashTx("@,
            MessageContent::Block(..) => "Block("@,
            MessageContent::Tx(..) => "Tx("@,
            MessageContent::Sequence(..) => "Sequence("@,
        };
        kind + content + ", sequence="@ + decimal(self.sequence as nat) + ")"@
    }

    /// The text of the content where this library defines it: a hash, an id, or
    /// an event. A block shows its hash, a transaction its id, which the bitcoin
    /// crate computes.
    pub open spec fn known_content_text(self) -> Option<Seq<char>> {
        match self.content {
            MessageContent::BlockHash(h) => Some(h.text()),
            MessageContent::Txid(h) => Some(h.text()),
            MessageContent::Sequence(s) => Some(s.text()),
            _ => None,
        }
    }

    /// The text of the message.
    pub fn to_string(&self) -> (r: String)
        ensures
            self.known_content_text() matches Some(t) ==> r@ == self.text_with(t),
            self.content matches MessageContent::Block(_) ==> exists|h: BlockHash|
                r@ == self.text_with(#[trigger] h.text()),
            self.content matches MessageContent::Tx(_) ==> exists|h: Txid|
                r@ == self.text_with(#[trigger] h.text()),
    {
        let mut s = String::new();
        match &self.content {
            MessageContent::BlockHash(blockhash) => {
                push_str(&mut s, "HashBlock(");
                push_str(&mut s, blockhash.to_string().as_str());
            },
            MessageContent::Txid(txid) => {
                push_str(&mut s, "HashTx(");
                push_str(&mut s, txid.to_string().as_str());
            },
            MessageContent::Block(block) => {
                push_str(&mut s, "Block(");
                let h = block_hash_of(block);
                push_str(&mut s, h.to_string().as_str());
                assert(s@ == "Block("@ + h.text());
            },
            MessageContent::Tx(tx) => {
                push_str(&mut s, "Tx(");
                let h = txid_of(tx);
                push_str(&mut s, h.to_string().as_str());
                assert(s@ == "Tx("@ + h.text());
            },
            MessageContent::Sequence(sm) => {
                push_str(&mut s, "Sequence(");
                push_str(&mut s, sm.to_string().as_str());
            },
        }
        let ghost head = s@;
        push_str(&mut s, ", sequence=");
        push_decimal(&mut s, self.sequence as u64);
        push_str(&mut s, ")");
        assert(s@ =~= head + ", sequence="@ + decimal(self.sequence as nat) + ")"@);
        s
    }

    /// Returns the topic of this message.
    pub fn topic(&self) -> (r: Topic)
        ensures
            r == self.content.spec_topic(),
    {
        self.content.topic()
    }

    /// Serializes the data frame of this message.
    pub fn serialize_data_to_vec(&self) -> (r: Vec<u8>)
        ensures
            self.content.known_wire() matches Some(w) ==> r@ == w,
    {
        self.content.serialize_data_to_vec()
    }

    /// Serializes this message to a raw message.
    pub fn serialize_to_raw_message(&self) -> (r: RawMessage<Vec<u8>>)
        ensures
            r.spec_topic() == self.content.spec_topic(),
            r.spec_sequence() == self.sequence,
            self.content.known_wire() matches Some(w) ==> r.spec_data() == w,
    {
        RawMessage::from_parts(self.topic(), self.serialize_data_to_vec(), self.sequence)
    }

    /// Serializes this message to its three frames.
    pub fn serialize_to_vecs(&self) -> (r: [Vec<u8>; 3])
        ensures
            r[0]@ == self.content.spec_topic().wire(),
            r[2]@ == spec_u32_to_le_bytes(self.sequence),
            self.known_frames() matches Some(f) ==> r[0]@ == f[0] && r[1]@ == f[1] && r[2]@ == f[2],
    {
        self.serialize_to_raw_message().to_vecs()
    }

    /// Decodes a multipart message: exactly three frames, topic, data and sequence
    /// number.
    pub fn from_multipart(mp: &[&[u8]]) -> (r: Result<Self, NotificationError>)
        ensures
            message_outcome(frames_of(mp@), r),
            mp@.len() != 3 ==> r == Err::<Self, NotificationError>(
                NotificationError::InvalidMutlipartLength(mp@.len() as usize),
            ),
            mp@.len() == 3 && Topic::parse(mp@[0]@) is None ==> (r matches Err(
                NotificationError::UnknownTopic(u),
            ) && u.captures(mp@[0]@)),
    {
        if mp.len() != 3 {
            return Err(NotificationError::InvalidMutlipartLength(mp.len()));
        }
        let raw = RawMessage::try_from_multipart_parts(mp[0], mp[1], mp[2]);
        assert(frames_of(mp@)[0] == mp@[0]@ && frames_of(mp@)[1] == mp@[1]@ && frames_of(mp@)[2] == mp@[2]@);
        match raw {
            Ok(raw) => Self::try_from_raw_message(raw),
            Err(e) => Err(e),
        }
    }

    /// Decodes the three frames of a message.
    pub fn from_fixed_size_multipart(mp: &[&[u8]; 3]) -> (r: Result<Self, NotificationError>)
        ensures
            message_outcome(frames_of(mp@), r),
    {
        let raw = RawMessage::try_from_multipart_parts(mp[0], mp[1], mp[2]);
        assert(frames_of(mp@)[0] == mp@[0]@ && frames_of(mp@)[1] == mp@[1]@ && frames_of(mp@)[2] == mp@[2]@);
        match raw {
            Ok(raw) => Self::try_from_raw_message(raw),
            Err(e) => Err(e),
        }
    }

    /// Decodes a raw message.
    pub fn try_from_raw_message<Bytes: ByteBuffer>(message: RawMessage<Bytes>) -> (r: Result<
        Self,
        NotificationError,
    >)
        ensures
            raw_outcome(message.spec_topic(), message.spec_data(), message.spec_sequence(), r),
    {
        let sequence = message.sequence();
        match MessageContent::try_from_raw_message(message) {
            Ok(content) => Ok(Message { content, sequence }),
            Err(e) => Err(e),
        }
    }
}

/// Decoding the frames of a message gives the message back, for every message
/// whose data frame this library defines (every content but blocks and
/// transactions, whose encoding belongs to the bitcoin crate).
pub proof fn lemma_message_round_trip(m: Message, r: Result<Message, NotificationError>)
    requires
        m.known_frames() is Some,
        message_outcome(m.known_frames()->0, r),
    ensures
        r == Ok::<Message, NotificationError>(m),
{
    let frames = m.known_frames()->0;
    lemma_wire_distinct();
    lemma_auto_spec_u32_to_from_le_bytes();
    lemma_hash_bytes_injective();
    assert(frames[0] == m.content.spec_topic().wire());
    assert(Topic::parse(frames[0]) == Some(m.content.spec_topic()));
    assert(frames_valid(frames[0], frames[2]));
    match m.content {
        MessageContent::BlockHash(h) => {
            lemma_reverse_reverse(h.bytes());
        },
        MessageContent::Txid(h) => {
            lemma_reverse_reverse(h.bytes());
        },
        MessageContent::Sequence(s) => {
            lemma_sequence_round_trip(s);
        },
        _ => {},
    }
}

} // verus!
