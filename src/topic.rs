//! The five notification channels and their names on the wire.

use vstd::prelude::*;
use vstd::string::*;
use vstd::utf8::*;

use crate::bytes::{bytes_eq, take_prefix};
use crate::text::{push_str, string_from_utf8_lossy, utf8_lossy};

verus! {

/// How many bytes of an unrecognised topic an [`UnknownTopicError`] keeps.
pub const TOPIC_CAPTURE_LEN: usize = 64;

/// Topic of a [`Message`](crate::Message).
#[derive(Debug, Clone, Copy, PartialEq, Eq, Hash)]
pub enum Topic {
    /// `"hashblock"`
    HashBlock,
    /// `"hashtx"`
    HashTx,
    /// `"rawblock"`
    RawBlock,
    /// `"rawtx"`
    RawTx,
    /// `"sequence"`
    Sequence,
}

impl Topic {
    /// The topic's name.
    pub open spec fn name(self) -> Seq<char> {
        match self {
            Topic::HashBlock => seq!['h', 'a', 's', 'h', 'b', 'l', 'o', 'c', 'k'],
            Topic::HashTx => seq!['h', 'a', 's', 'h', 't', 'x'],
            Topic::RawBlock => seq!['r', 'a', 'w', 'b', 'l', 'o', 'c', 'k'],
            Topic::RawTx => seq!['r', 'a', 'w', 't', 'x'],
            Topic::Sequence => seq!['s', 'e', 'q', 'u', 'e', 'n', 'c', 'e'],
        }
    }

    /// The topic's name as it stands in the first frame of a message: one byte per
    /// (ASCII) character.
    pub open spec fn wire(self) -> Seq<u8> {
        self.name().map_values(|c: char| c as u8)
    }

    /// The topic whose wire form is `bytes`, if there is one.
    pub open spec fn parse(bytes: Seq<u8>) -> Option<Topic> {
        if bytes == Topic::HashBlock.wire() {
            Some(Topic::HashBlock)
        } else if bytes == Topic::HashTx.wire() {
            Some(Topic::HashTx)
        } else if bytes == Topic::RawBlock.wire() {
            Some(Topic::RawBlock)
        } else if bytes == Topic::RawTx.wire() {
            Some(Topic::RawTx)
        } else if bytes == Topic::Sequence.wire() {
            Some(Topic::Sequence)
        } else {
            None
        }
    }

    /// Converts a topic string (as a byte slice) to a [`Topic`]; `None` for any
    /// byte string that is not exactly one of the five names.
    ///
    /// To convert back, use [`Topic::as_bytes`].
    pub fn try_from_bytes_const(bytes: &[u8]) -> (r: Option<Self>)
        ensures
            r == Topic::parse(bytes@),
            r matches Some(t) ==> t.wire() == bytes@,
    {
        proof {
            lemma_wire_distinct();
        }
        if bytes_eq(bytes, Topic::HashBlock.as_bytes()) {
            Some(Topic::HashBlock)
        } else if bytes_eq(bytes, Topic::HashTx.as_bytes()) {
            Some(Topic::HashTx)
        } else if bytes_eq(bytes, Topic::RawBlock.as_bytes()) {
            Some(Topic::RawBlock)
        } else if bytes_eq(bytes, Topic::RawTx.as_bytes()) {
            Some(Topic::RawTx)
        } else if bytes_eq(bytes, Topic::Sequence.as_bytes()) {
            Some(Topic::Sequence)
        } else {
            None
        }
    }

    /// Converts a topic string (as a byte slice) to a [`Topic`], or to an error that
    /// keeps (the first [`TOPIC_CAPTURE_LEN`] bytes of) the unknown topic.
    pub fn try_from_bytes(bytes: &[u8]) -> (r: Result<Self, UnknownTopicError>)
        ensures
            match r {
                Ok(t) => Topic::parse(bytes@) == Some(t),
                Err(e) => Topic::parse(bytes@) is None && e.captures(bytes@),
            },
    {
        match Self::try_from_bytes_const(bytes) {
            Some(t) => Ok(t),
            None => Err(UnknownTopicError::from_bytes(bytes)),
        }
    }

    /// Converts a topic string to a [`Topic`].
    pub fn try_from_str(s: &str) -> (r: Result<Self, UnknownTopicError>)
        ensures
            match r {
                Ok(t) => Topic::parse(s.spec_bytes()) == Some(t),
                Err(e) => Topic::parse(s.spec_bytes()) is None && e.captures(s.spec_bytes()),
            },
    {
        Self::try_from_bytes(s.as_bytes())
    }

    /// The topic's name as bytes.
    pub fn as_bytes(self) -> (r: &'static [u8])
        ensures
            r@ == self.wire(),
    {
        let s = self.as_str();
        proof {
            broadcast use is_ascii_chars_encode_utf8;

            assert(is_ascii_chars(s@));
        }
        let r = s.as_bytes();
        assert(r@ =~= self.wire());
        r
    }

    /// The topic's name.
    pub fn as_str(self) -> (r: &'static str)
        ensures
            r@ == self.name(),
    {
        match self {
            Topic::HashBlock => {
                proof {
                    reveal_strlit("hashblock");
                }
                "hashblock"
            },
            Topic::HashTx => {
                proof {
                    reveal_strlit("hashtx");
                }
                "hashtx"
            },
            Topic::RawBlock => {
                proof {
                    reveal_strlit("rawblock");
                }
                "rawblock"
            },
            Topic::RawTx => {
                proof {
                    reveal_strlit("rawtx");
                }
                "rawtx"
            },
            Topic::Sequence => {
                proof {
                    reveal_strlit("sequence");
                }
                "sequence"
            },
        }
    }
}

/// Distinct topics have distinct wire forms, and each is at most nine bytes long.
pub proof fn lemma_wire_distinct()
    ensures
        forall|t: Topic, u: Topic| t != u ==> #[trigger] t.wire() != #[trigger] u.wire(),
        forall|t: Topic| #[trigger] t.wire().len() <= 9,
        forall|t: Topic| Topic::parse(#[trigger] t.wire()) == Some(t),
{
    assert(Topic::HashBlock.wire()[4] != Topic::HashTx.wire()[4]);
    assert(Topic::RawBlock.wire()[3] != Topic::RawTx.wire()[3]);
    assert(Topic::HashBlock.wire()[0] != Topic::RawBlock.wire()[0]);
    assert(Topic::HashBlock.wire()[0] != Topic::RawTx.wire()[0]);
    assert(Topic::HashTx.wire()[0] != Topic::RawBlock.wire()[0]);
    assert(Topic::HashTx.wire()[0] != Topic::RawTx.wire()[0]);
    assert(Topic::Sequence.wire()[0] != Topic::HashBlock.wire()[0]);
    assert(Topic::Sequence.wire()[0] != Topic::HashTx.wire()[0]);
    assert(Topic::Sequence.wire()[0] != Topic::RawBlock.wire()[0]);
    assert(Topic::Sequence.wire()[0] != Topic::RawTx.wire()[0]);
}

/// Error for a topic string that is not one of the five known names. Keeps the
/// first [`TOPIC_CAPTURE_LEN`] bytes of the topic and its full length.
#[derive(Debug, Clone)]
pub struct UnknownTopicError {
    topic: Vec<u8>,
    len: usize,
}

impl UnknownTopicError {
    /// What the error keeps of the rejected topic.
    pub closed spec fn kept(&self) -> Seq<u8> {
        self.topic@
    }

    /// The full length of the rejected topic.
    pub closed spec fn full_len(&self) -> nat {
        self.len as nat
    }

    /// The error holds `bytes` as its rejected topic: the length of `bytes`, and
    /// `bytes` itself cut at [`TOPIC_CAPTURE_LEN`].
    pub open spec fn captures(&self, bytes: Seq<u8>) -> bool {
        &&& self.full_len() == bytes.len()
        &&& self.kept() == bytes.take(
            if bytes.len() < TOPIC_CAPTURE_LEN { bytes.len() as int } else { TOPIC_CAPTURE_LEN as int },
        )
    }

    fn from_bytes(bytes: &[u8]) -> (r: Self)
        ensures
            r.captures(bytes@),
    {
        UnknownTopicError { topic: take_prefix(bytes, TOPIC_CAPTURE_LEN), len: bytes.len() }
    }

    /// The rejected topic, cut at [`TOPIC_CAPTURE_LEN`] bytes.
    pub fn invalid_topic_as_bytes(&self) -> (r: &[u8])
        ensures
            r@ == self.kept(),
    {
        self.topic.as_slice()
    }

    /// The full length of the rejected topic.
    pub fn invalid_topic_len(&self) -> (r: usize)
        ensures
            r == self.full_len(),
    {
        self.len
    }

    /// What the error says: the kept bytes read as UTF-8, invalid sequences
    /// replaced.
    pub open spec fn text(&self) -> Seq<char> {
        "unknown topic \""@ + utf8_lossy(self.kept()) + "\""@
    }

    /// What the error says.
    pub fn to_string(&self) -> (r: String)
        ensures
            r@ == self.text(),
    {
        let mut s = String::new();
        push_str(&mut s, "unknown topic \"");
        let topic = string_from_utf8_lossy(self.topic.as_slice());
        push_str(&mut s, topic.as_str());
        push_str(&mut s, "\"");
        s
    }

    /// Takes the kept bytes out of the error.
    pub fn into_inner(self) -> (r: Vec<u8>)
        ensures
            r@ == self.kept(),
    {
        self.topic
    }
}

} // verus!
