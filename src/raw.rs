//! Raw messages: a topic, the data frame as bytes, and the sequence number.

use vstd::bytes::*;
use vstd::prelude::*;

use crate::error::NotificationError;
use crate::topic::Topic;

verus! {

/// Length of the sequence frame of a message.
pub const SEQUENCE_LEN: usize = 4;

/// Something that holds a byte string: an owned `Vec<u8>` or a borrowed `&[u8]`.
pub trait ByteBuffer {
    /// The bytes held.
    spec fn byte_view(&self) -> Seq<u8>;

    /// The bytes held, as a slice.
    fn as_byte_slice(&self) -> (r: &[u8])
        ensures
            r@ == self.byte_view(),
    ;
}

impl ByteBuffer for Vec<u8> {
    open spec fn byte_view(&self) -> Seq<u8> {
        self@
    }

    fn as_byte_slice(&self) -> (r: &[u8]) {
        self.as_slice()
    }
}

impl<'a> ByteBuffer for &'a [u8] {
    open spec fn byte_view(&self) -> Seq<u8> {
        (*self)@
    }

    fn as_byte_slice(&self) -> (r: &[u8]) {
        *self
    }
}

/// The sequence number as four little-endian bytes.
pub fn sequence_to_bytes(sequence: u32) -> (r: [u8; 4])
    ensures
        r@ == spec_u32_to_le_bytes(sequence),
{
    proof {
        lemma_auto_spec_u32_to_from_le_bytes();
    }
    let v = u32_to_le_bytes(sequence);
    let r = [v[0], v[1], v[2], v[3]];
    assert(r@ =~= v@);
    r
}

/// Why a topic frame and a sequence frame do not make a raw message: `e` is the
/// error for them, an unknown topic before a sequence frame of the wrong length.
pub open spec fn frames_error(topic: Seq<u8>, sequence: Seq<u8>, e: NotificationError) -> bool {
    if Topic::parse(topic) is None {
        e matches NotificationError::UnknownTopic(u) && u.captures(topic)
    } else {
        &&& sequence.len() != SEQUENCE_LEN
        &&& e == NotificationError::InvalidSequenceLength(sequence.len() as usize)
    }
}

/// Whether a topic frame and a sequence frame make a raw message.
pub open spec fn frames_valid(topic: Seq<u8>, sequence: Seq<u8>) -> bool {
    Topic::parse(topic) is Some && sequence.len() == SEQUENCE_LEN
}

/// A raw message. Raw messages can be parsed to [`Message`](crate::Message)s and
/// serialized to bytes.
///
/// The data is held in any [`ByteBuffer`]; it defaults to [`Vec<u8>`].
#[derive(Debug, Clone, Copy, PartialEq, Eq, Hash)]
pub struct RawMessage<Bytes = Vec<u8>> {
    topic: Topic,
    data: Bytes,
    sequence: u32,
}

impl<Bytes: ByteBuffer> RawMessage<Bytes> {
    /// The message's topic.
    pub closed spec fn spec_topic(&self) -> Topic {
        self.topic
    }

    /// The message's data frame.
    pub closed spec fn spec_data(&self) -> Seq<u8> {
        self.data.byte_view()
    }

    /// The message's sequence number.
    pub closed spec fn spec_sequence(&self) -> u32 {
        self.sequence
    }

    /// Makes a raw message of its three parts.
    pub fn from_parts(topic: Topic, data: Bytes, sequence: u32) -> (r: Self)
        ensures
            r.spec_topic() == topic,
            r.spec_data() == data.byte_view(),
            r.spec_sequence() == sequence,
    {
        RawMessage { topic, data, sequence }
    }

    /// Splits the message into its three parts.
    pub fn into_parts(self) -> (r: (Topic, Bytes, u32))
        ensures
            r.0 == self.spec_topic(),
            r.1.byte_view() == self.spec_data(),
            r.2 == self.spec_sequence(),
    {
        (self.topic, self.data, self.sequence)
    }

    /// A raw message that borrows this one's data.
    pub fn as_ref(&self) -> (r: RawMessage<&[u8]>)
        ensures
            r.spec_topic() == self.spec_topic(),
            r.spec_data() == self.spec_data(),
            r.spec_sequence() == self.spec_sequence(),
    {
        RawMessage::from_parts(self.topic, self.data_as_bytes(), self.sequence)
    }

    /// Makes a raw message of a multipart message, which must have exactly three
    /// frames: topic, data and sequence number.
    pub fn try_from_multipart(multipart: Vec<Bytes>) -> (r: Result<Self, NotificationError>)
        ensures
            multipart@.len() != 3 ==> r == Err::<Self, NotificationError>(
                NotificationError::InvalidMutlipartLength(multipart@.len() as usize),
            ),
            multipart@.len() == 3 ==> match r {
                Ok(m) => {
                    &&& frames_valid(multipart@[0].byte_view(), multipart@[2].byte_view())
                    &&& m.spec_topic() == Topic::parse(multipart@[0].byte_view())->0
                    &&& m.spec_data() == multipart@[1].byte_view()
                    &&& m.spec_sequence() == spec_u32_from_le_bytes(multipart@[2].byte_view())
                },
                Err(e) => frames_error(multipart@[0].byte_view(), multipart@[2].byte_view(), e),
            },
    {
        let mut multipart = multipart;
        let parts = multipart.len();
        if parts != 3 {
            return Err(NotificationError::InvalidMutlipartLength(parts));
        }
        let ghost frames = multipart@;
        let sequence = multipart.pop().unwrap();
        let data = multipart.pop().unwrap();
        let topic = multipart.pop().unwrap();
        assert(topic == frames[0] && data == frames[1] && sequence == frames[2]);
        Self::try_from_multipart_parts(topic.as_byte_slice(), data, sequence.as_byte_slice())
    }

    /// Makes a raw message of its three frames: the topic must be one of the five
    /// names, and the sequence frame four bytes long.
    pub fn try_from_multipart_parts(topic: &[u8], data: Bytes, sequence: &[u8]) -> (r: Result<
        Self,
        NotificationError,
    >)
        ensures
            match r {
                Ok(m) => {
                    &&& frames_valid(topic@, sequence@)
                    &&& m.spec_topic() == Topic::parse(topic@)->0
                    &&& m.spec_data() == data.byte_view()
                    &&& m.spec_sequence() == spec_u32_from_le_bytes(sequence@)
                },
                Err(e) => frames_error(topic@, sequence@, e),
            },
    {
        let topic = match Topic::try_from_bytes(topic) {
            Ok(t) => t,
            Err(e) => {
                return Err(NotificationError::UnknownTopic(e));
            },
        };
        if sequence.len() != SEQUENCE_LEN {
            return Err(NotificationError::InvalidSequenceLength(sequence.len()));
        }
        let sequence = u32_from_le_bytes(sequence);
        Ok(Self::from_parts(topic, data, sequence))
    }

    /// The three frames of the message, as vectors.
    pub fn to_vecs(&self) -> (r: [Vec<u8>; 3])
        ensures
            r[0]@ == self.spec_topic().wire(),
            r[1]@ == self.spec_data(),
            r[2]@ == spec_u32_to_le_bytes(self.spec_sequence()),
    {
        let topic = copy_bytes(self.topic_as_bytes());
        let data = copy_bytes(self.data_as_bytes());
        let sequence_bytes = self.sequence_as_bytes();
        let sequence = copy_bytes(sequence_bytes.as_slice());
        [topic, data, sequence]
    }

    /// The message's topic.
    pub fn topic(&self) -> (r: Topic)
        ensures
            r == self.spec_topic(),
    {
        self.topic
    }

    /// The message's topic as bytes.
    pub fn topic_as_bytes(&self) -> (r: &'static [u8])
        ensures
            r@ == self.spec_topic().wire(),
    {
        self.topic.as_bytes()
    }

    /// The message's data.
    pub fn data(&self) -> (r: &Bytes)
        ensures
            r.byte_view() == self.spec_data(),
    {
        &self.data
    }

    /// The message's data as bytes.
    pub fn data_as_bytes(&self) -> (r: &[u8])
        ensures
            r@ == self.spec_data(),
    {
        self.data.as_byte_slice()
    }

    /// The message's sequence number.
    pub fn sequence(&self) -> (r: u32)
        ensures
            r == self.spec_sequence(),
    {
        self.sequence
    }

    /// The message's sequence number as it stands on the wire.
    pub fn sequence_as_bytes(&self) -> (r: [u8; 4])
        ensures
            r@ == spec_u32_to_le_bytes(self.spec_sequence()),
    {
        sequence_to_bytes(self.sequence)
    }
}

/// A copy of `s`.
pub fn copy_bytes(s: &[u8]) -> (r: Vec<u8>)
    ensures
        r@ == s@,
{
    let mut r: Vec<u8> = Vec::with_capacity(s.len());
    let mut i: usize = 0;
    while i < s.len()
        invariant
            i <= s@.len(),
            r@ == s@.take(i as int),
        decreases s@.len() - i,
    {
        r.push(s[i]);
        i = i + 1;
        assert(r@ =~= s@.take(i as int));
    }
    assert(r@ =~= s@);
    r
}

} // verus!
