//! Payloads of the `sequence` topic: block (dis)connections and mempool
//! acceptances and removals.
//!
//! Layout: 32 bytes of hash (reversed, as on every topic), one label byte, and for
//! the mempool labels 8 more bytes holding the mempool sequence, little-endian.

use vstd::bytes::*;
use vstd::prelude::*;
use vstd::slice::slice_subrange;

use crate::error::NotificationError;
use crate::text::{decimal, push_decimal, push_str};
use crate::hash::{lemma_hash_bytes_injective, lemma_reverse_reverse, reversed_array, BlockHash, Txid};

verus! {

/// Length of a block connect or disconnect payload.
pub const BLOCK_EVENT_LEN: usize = 33;

/// Length of a mempool acceptance or removal payload.
pub const MEMPOOL_EVENT_LEN: usize = 41;

/// Label of a block connection: `C`.
pub const LABEL_BLOCK_CONNECT: u8 = 0x43;

/// Label of a block disconnection: `D`.
pub const LABEL_BLOCK_DISCONNECT: u8 = 0x44;

/// Label of a mempool acceptance: `A`.
pub const LABEL_MEMPOOL_ACCEPTANCE: u8 = 0x41;

/// Label of a mempool removal: `R`.
pub const LABEL_MEMPOOL_REMOVAL: u8 = 0x52;

/// A chain or mempool event of the `sequence` topic.
#[derive(Debug, PartialEq, Eq, Clone, Copy)]
pub enum SequenceMessage {
    /// A block was connected to the chain.
    BlockConnect { blockhash: BlockHash },
    /// A block was disconnected from the chain.
    BlockDisconnect { blockhash: BlockHash },
    /// A transaction entered the mempool.
    MempoolAcceptance { txid: Txid, mempool_sequence: u64 },
    /// A transaction left the mempool for a reason other than being mined.
    MempoolRemoval { txid: Txid, mempool_sequence: u64 },
}

impl SequenceMessage {
    /// The label byte: `C`, `D`, `A` or `R`.
    pub open spec fn spec_label(self) -> u8 {
        match self {
            SequenceMessage::BlockConnect { .. } => LABEL_BLOCK_CONNECT,
            SequenceMessage::BlockDisconnect { .. } => LABEL_BLOCK_DISCONNECT,
            SequenceMessage::MempoolAcceptance { .. } => LABEL_MEMPOOL_ACCEPTANCE,
            SequenceMessage::MempoolRemoval { .. } => LABEL_MEMPOOL_REMOVAL,
        }
    }

    /// The block hash or transaction id, in the bitcoin crate's byte order.
    pub open spec fn hash_bytes(self) -> Seq<u8> {
        match self {
            SequenceMessage::BlockConnect { blockhash } => blockhash.bytes(),
            SequenceMessage::BlockDisconnect { blockhash } => blockhash.bytes(),
            SequenceMessage::MempoolAcceptance { txid, .. } => txid.bytes(),
            SequenceMessage::MempoolRemoval { txid, .. } => txid.bytes(),
        }
    }

    /// The mempool sequence of the mempool events.
    pub open spec fn spec_mempool_sequence(self) -> Option<u64> {
        match self {
            SequenceMessage::MempoolAcceptance { mempool_sequence, .. } => Some(mempool_sequence),
            SequenceMessage::MempoolRemoval { mempool_sequence, .. } => Some(mempool_sequence),
            _ => None,
        }
    }

    /// Length of the encoded event.
    pub open spec fn spec_raw_length(self) -> nat {
        match self.spec_mempool_sequence() {
            Some(_) => MEMPOOL_EVENT_LEN as nat,
            None => BLOCK_EVENT_LEN as nat,
        }
    }

    /// The encoded event.
    pub open spec fn wire(self) -> Seq<u8> {
        self.hash_bytes().reverse() + seq![self.spec_label()] + match self.spec_mempool_sequence() {
            Some(s) => spec_u64_to_le_bytes(s),
            None => Seq::empty(),
        }
    }

    /// Why `bytes` is not an encoded event, if it is not one. Any byte string for
    /// which this is `None` is the encoding of exactly one event.
    pub open spec fn wire_error(bytes: Seq<u8>) -> Option<NotificationError> {
        let len = bytes.len() as usize;
        if bytes.len() < BLOCK_EVENT_LEN {
            Some(NotificationError::InvalidSequenceMessageLength(len))
        } else if bytes[32] == LABEL_BLOCK_CONNECT || bytes[32] == LABEL_BLOCK_DISCONNECT {
            if bytes.len() != BLOCK_EVENT_LEN {
                Some(NotificationError::InvalidSequenceMessageLength(len))
            } else {
                None
            }
        } else if bytes[32] == LABEL_MEMPOOL_ACCEPTANCE || bytes[32] == LABEL_MEMPOOL_REMOVAL {
            if bytes.len() != MEMPOOL_EVENT_LEN {
                Some(NotificationError::InvalidSequenceMessageLength(len))
            } else {
                None
            }
        } else {
            Some(NotificationError::InvalidSequenceMessageLabel(bytes[32]))
        }
    }

    /// Returns the length of this event when serialized: 33 or 41.
    pub fn raw_length(&self) -> (r: usize)
        ensures
            r == self.spec_raw_length(),
    {
        match self {
            SequenceMessage::BlockConnect { .. } | SequenceMessage::BlockDisconnect { .. } => BLOCK_EVENT_LEN,
            SequenceMessage::MempoolAcceptance { .. } | SequenceMessage::MempoolRemoval { .. } => MEMPOOL_EVENT_LEN,
        }
    }

    /// Returns the label of this event as a [`char`].
    pub fn label_char(&self) -> (r: char)
        ensures
            r == self.spec_label() as char,
    {
        self.label() as char
    }

    /// Returns the label of this event as a [`u8`].
    pub fn label(&self) -> (r: u8)
        ensures
            r == self.spec_label(),
    {
        match self {
            SequenceMessage::BlockConnect { .. } => LABEL_BLOCK_CONNECT,
            SequenceMessage::BlockDisconnect { .. } => LABEL_BLOCK_DISCONNECT,
            SequenceMessage::MempoolAcceptance { .. } => LABEL_MEMPOOL_ACCEPTANCE,
            SequenceMessage::MempoolRemoval { .. } => LABEL_MEMPOOL_REMOVAL,
        }
    }

    /// Returns the block hash or transaction id in the byte order of the wire.
    pub fn inner_hash_as_bytes(&self) -> (r: [u8; 32])
        ensures
            r@ == self.hash_bytes().reverse(),
    {
        let arr = match self {
            SequenceMessage::BlockConnect { blockhash } => blockhash.to_byte_array(),
            SequenceMessage::BlockDisconnect { blockhash } => blockhash.to_byte_array(),
            SequenceMessage::MempoolAcceptance { txid, .. } => txid.to_byte_array(),
            SequenceMessage::MempoolRemoval { txid, .. } => txid.to_byte_array(),
        };
        reversed_array(&arr)
    }

    /// Returns the mempool sequence of a [`MempoolAcceptance`] or a [`MempoolRemoval`].
    /// This is a number that starts at 1 and goes up every time Bitcoin Core adds a
    /// transaction to the mempool or removes one.
    ///
    /// Transactions that leave the mempool because a block includes them increment
    /// the mempool sequence, but produce no [`MempoolRemoval`] event.
    ///
    /// [`MempoolAcceptance`]: SequenceMessage::MempoolAcceptance
    /// [`MempoolRemoval`]: SequenceMessage::MempoolRemoval
    pub fn mempool_sequence(&self) -> (r: Option<u64>)
        ensures
            r == self.spec_mempool_sequence(),
    {
        match self {
            SequenceMessage::BlockConnect { .. } | SequenceMessage::BlockDisconnect { .. } => None,
            SequenceMessage::MempoolAcceptance { mempool_sequence, .. }
            | SequenceMessage::MempoolRemoval { mempool_sequence, .. } => Some(*mempool_sequence),
        }
    }

    /// The text of the event.
    pub open spec fn text(self) -> Seq<char> {
        match self {
            SequenceMessage::BlockConnect { blockhash } => "BlockConnect("@ + blockhash.text() + ")"@,
            SequenceMessage::BlockDisconnect { blockhash } => "BlockDisconnect("@ + blockhash.text()
                + ")"@,
            SequenceMessage::MempoolAcceptance { txid, mempool_sequence } => "MempoolAcceptance("@
                + txid.text() + ", mempool_sequence="@ + decimal(mempool_sequence as nat) + ")"@,
            SequenceMessage::MempoolRemoval { txid, mempool_sequence } => "MempoolRemoval("@
                + txid.text() + ", mempool_sequence="@ + decimal(mempool_sequence as nat) + ")"@,
        }
    }

    /// The text of the event.
    pub fn to_string(&self) -> (r: String)
        ensures
            r@ == self.text(),
    {
        let mut s = String::new();
        match self {
            SequenceMessage::BlockConnect { blockhash } => {
                push_str(&mut s, "BlockConnect(");
                push_str(&mut s, blockhash.to_string().as_str());
                push_str(&mut s, ")");
            },
            SequenceMessage::BlockDisconnect { blockhash } => {
                push_str(&mut s, "BlockDisconnect(");
                push_str(&mut s, blockhash.to_string().as_str());
                push_str(&mut s, ")");
            },
            SequenceMessage::MempoolAcceptance { txid, mempool_sequence } => {
                push_str(&mut s, "MempoolAcceptance(");
                push_str(&mut s, txid.to_string().as_str());
                push_str(&mut s, ", mempool_sequence=");
                push_decimal(&mut s, *mempool_sequence);
                push_str(&mut s, ")");
            },
            SequenceMessage::MempoolRemoval { txid, mempool_sequence } => {
                push_str(&mut s, "MempoolRemoval(");
                push_str(&mut s, txid.to_string().as_str());
                push_str(&mut s, ", mempool_sequence=");
                push_decimal(&mut s, *mempool_sequence);
                push_str(&mut s, ")");
            },
        }
        s
    }

    /// Decodes a `sequence` payload. Succeeds exactly on the encodings of events,
    /// and returns the event encoded; otherwise says why the bytes are no event.
    pub fn from_byte_slice(bytes: &[u8]) -> (r: Result<Self, NotificationError>)
        ensures
            match r {
                Ok(m) => Self::wire_error(bytes@) is None && m.wire() == bytes@,
                Err(e) => Self::wire_error(bytes@) == Some(e),
            },
            bytes@.len() < BLOCK_EVENT_LEN ==> r == Err::<Self, NotificationError>(
                NotificationError::InvalidSequenceMessageLength(bytes@.len() as usize),
            ),
    {
        let len = bytes.len();
        if len < BLOCK_EVENT_LEN {
            return Err(NotificationError::InvalidSequenceMessageLength(len));
        }
        let wire_hash = slice_subrange(bytes, 0, 32);
        let hash = reversed_array(wire_hash);
        proof {
            lemma_reverse_reverse(wire_hash@);
            lemma_auto_spec_u64_to_from_le_bytes();
        }
        let label = bytes[32];
        if label == LABEL_BLOCK_CONNECT || label == LABEL_BLOCK_DISCONNECT {
            if len != BLOCK_EVENT_LEN {
                return Err(NotificationError::InvalidSequenceMessageLength(len));
            }
            let blockhash = BlockHash::from_byte_array(hash);
            let m = if label == LABEL_BLOCK_CONNECT {
                SequenceMessage::BlockConnect { blockhash }
            } else {
                SequenceMessage::BlockDisconnect { blockhash }
            };
            assert(m.wire() =~= bytes@);
            Ok(m)
        } else if label == LABEL_MEMPOOL_ACCEPTANCE || label == LABEL_MEMPOOL_REMOVAL {
            if len != MEMPOOL_EVENT_LEN {
                return Err(NotificationError::InvalidSequenceMessageLength(len));
            }
            let txid = Txid::from_byte_array(hash);
            let seq_bytes = slice_subrange(bytes, 33, 41);
            let mempool_sequence = u64_from_le_bytes(seq_bytes);
            let m = if label == LABEL_MEMPOOL_ACCEPTANCE {
                SequenceMessage::MempoolAcceptance { txid, mempool_sequence }
            } else {
                SequenceMessage::MempoolRemoval { txid, mempool_sequence }
            };
            assert(m.wire() =~= bytes@);
            Ok(m)
        } else {
            Err(NotificationError::InvalidSequenceMessageLabel(label))
        }
    }

    /// Encodes this event.
    pub fn serialize_to_vec(&self) -> (r: Vec<u8>)
        ensures
            r@ == self.wire(),
            r@.len() == self.spec_raw_length(),
    {
        proof {
            lemma_auto_spec_u64_to_from_le_bytes();
        }
        let mut ret: Vec<u8> = Vec::with_capacity(self.raw_length());
        let hash = self.inner_hash_as_bytes();
        let mut i: usize = 0;
        while i < 32
            invariant
                i <= 32,
                ret@ == hash@.take(i as int),
            decreases 32 - i,
        {
            ret.push(hash[i]);
            i = i + 1;
            assert(ret@ =~= hash@.take(i as int));
        }
        assert(hash@.take(32) =~= hash@);
        ret.push(self.label());
        match self.mempool_sequence() {
            Some(mempool_sequence) => {
                let mut tail = u64_to_le_bytes(mempool_sequence);
                ret.append(&mut tail);
            },
            None => {},
        }
        assert(ret@ =~= self.wire());
        ret
    }
}

/// Every event decodes back to itself, and its encoding is `raw_length` bytes long:
/// its encoding is a valid payload, and no other event has the same encoding.
pub proof fn lemma_sequence_round_trip(m: SequenceMessage)
    ensures
        SequenceMessage::wire_error(m.wire()) is None,
        m.wire().len() == m.spec_raw_length(),
        forall|n: SequenceMessage| #[trigger] n.wire() == m.wire() ==> n == m,
{
    lemma_auto_spec_u64_to_from_le_bytes();
    lemma_hash_bytes_injective();
    lemma_reverse_reverse(m.hash_bytes());
    assert(m.wire()[32] == m.spec_label());
    assert forall|n: SequenceMessage| #[trigger] n.wire() == m.wire() implies n == m by {
        lemma_reverse_reverse(n.hash_bytes());
        assert(n.wire()[32] == n.spec_label());
        assert(n.spec_label() == m.spec_label());
        assert(n.hash_bytes().reverse() =~= n.wire().take(32));
        assert(m.hash_bytes().reverse() =~= m.wire().take(32));
        assert(n.hash_bytes() == m.hash_bytes());
        if m.spec_mempool_sequence() is Some {
            assert(n.wire().subrange(33, 41) =~= spec_u64_to_le_bytes(n.spec_mempool_sequence()->0));
            assert(m.wire().subrange(33, 41) =~= spec_u64_to_le_bytes(m.spec_mempool_sequence()->0));
        }
    }
}

} // verus!
