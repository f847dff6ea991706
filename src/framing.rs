//! The receive loop's decisions: frames come in one at a time, with a flag that
//! says whether more frames of the same message follow; once the last frame of a
//! message is in, the message is decoded.
//!
//! Every frame of a message is taken, also after the message is known to be
//! malformed, so that one bad message never leaves frames behind that the next
//! read would take for a new message. The data frame is copied into one buffer
//! that is kept from message to message.

use vstd::bytes::*;
use vstd::prelude::*;

use crate::bytes::refill;
use crate::error::NotificationError;
use crate::message::{raw_outcome, Message};
use crate::raw::{RawMessage, SEQUENCE_LEN};
use crate::topic::{Topic, UnknownTopicError};

verus! {

/// Largest data frame the receive loop takes: the largest block weight that
/// consensus allows, 4,000,000 weight units, bounds the size of a block.
pub const DATA_MAX_LEN: usize = 4_000_000;

/// What receiving the frames `frames` of one message gives: the decoded message,
/// or the first error in the order in which the frames arrive. The topic frame is
/// judged first; then a message that ends after it; then a data frame longer than
/// [`DATA_MAX_LEN`]; then a message that ends after the data frame; then a
/// sequence frame of the wrong length; then frames after the third; and last the
/// content of the data frame.
pub open spec fn receive_outcome(frames: Seq<Seq<u8>>, r: Result<Message, NotificationError>) -> bool {
    if frames.len() == 0 {
        r == Err::<Message, NotificationError>(NotificationError::InvalidMutlipartLength(0))
    } else if Topic::parse(frames[0]) is None {
        r matches Err(NotificationError::UnknownTopic(u)) && u.captures(frames[0])
    } else if frames.len() == 1 {
        r == Err::<Message, NotificationError>(NotificationError::InvalidMutlipartLength(1))
    } else if frames[1].len() > DATA_MAX_LEN {
        r == Err::<Message, NotificationError>(
            NotificationError::InvalidDataLength(frames[1].len() as usize),
        )
    } else if frames.len() == 2 {
        r == Err::<Message, NotificationError>(NotificationError::InvalidMutlipartLength(2))
    } else if frames[2].len() != SEQUENCE_LEN {
        r == Err::<Message, NotificationError>(
            NotificationError::InvalidSequenceLength(frames[2].len() as usize),
        )
    } else if frames.len() > 3 {
        r == Err::<Message, NotificationError>(
            NotificationError::InvalidMutlipartLength(frames.len() as usize),
        )
    } else {
        raw_outcome(Topic::parse(frames[0])->0, frames[1], spec_u32_from_le_bytes(frames[2]), r)
    }
}

/// Gathers the frames of one message at a time and decodes each message once its
/// last frame is in.
pub struct FrameAssembler {
    count: usize,
    topic: Option<Result<Topic, UnknownTopicError>>,
    data: Vec<u8>,
    data_len: usize,
    sequence: Option<u32>,
    sequence_len: usize,
    frames: Ghost<Seq<Seq<u8>>>,
}

impl FrameAssembler {
    /// The frames of the message in progress.
    pub closed spec fn pending_frames(&self) -> Seq<Seq<u8>> {
        self.frames@
    }

    /// What the assembler keeps agrees with the frames of the message in progress.
    pub closed spec fn wf(&self) -> bool {
        let f = self.frames@;
        &&& self.count == f.len()
        &&& (f.len() == 0 <==> self.topic is None)
        &&& f.len() >= 1 ==> match self.topic {
            Some(Ok(t)) => Topic::parse(f[0]) == Some(t),
            Some(Err(e)) => Topic::parse(f[0]) is None && e.captures(f[0]),
            None => false,
        }
        &&& f.len() >= 2 ==> self.data_len == f[1].len() && (self.data_len <= DATA_MAX_LEN
            ==> self.data@ == f[1])
        &&& f.len() >= 3 ==> {
            &&& self.sequence_len == f[2].len()
            &&& (self.sequence_len == SEQUENCE_LEN <==> self.sequence is Some)
            &&& self.sequence matches Some(s) ==> s == spec_u32_from_le_bytes(f[2])
        }
    }

    /// An assembler with no message in progress.
    pub fn new() -> (r: Self)
        ensures
            r.wf(),
            r.pending_frames().len() == 0,
    {
        FrameAssembler {
            count: 0,
            topic: None,
            data: Vec::new(),
            data_len: 0,
            sequence: None,
            sequence_len: 0,
            frames: Ghost(Seq::empty()),
        }
    }

    /// How many frames of the message in progress are in.
    pub fn frame_count(&self) -> (r: usize)
        requires
            self.wf(),
        ensures
            r == self.pending_frames().len(),
    {
        self.count
    }

    /// Takes the next frame; `more` says whether the message has more frames.
    /// Returns the decoded message, or its error, once the last frame is in.
    pub fn push_frame(&mut self, frame: &[u8], more: bool) -> (r: Option<
        Result<Message, NotificationError>,
    >)
        requires
            old(self).wf(),
            old(self).pending_frames().len() < usize::MAX,
        ensures
            final(self).wf(),
            more ==> r is None && final(self).pending_frames() == old(self).pending_frames().push(
                frame@,
            ),
            !more ==> final(self).pending_frames().len() == 0 && (r matches Some(res)
                && receive_outcome(old(self).pending_frames().push(frame@), res)),
    {
        let index = self.count;
        if index == 0 {
            self.topic = Some(Topic::try_from_bytes(frame));
        } else if index == 1 {
            self.data_len = frame.len();
            if frame.len() <= DATA_MAX_LEN {
                refill(&mut self.data, frame);
            }
        } else if index == 2 {
            self.sequence_len = frame.len();
            if frame.len() == SEQUENCE_LEN {
                self.sequence = Some(u32_from_le_bytes(frame));
            } else {
                self.sequence = None;
            }
        }
        self.count = index + 1;
        proof {
            self.frames@ = self.frames@.push(frame@);
        }
        if more {
            return None;
        }
        Some(self.finish())
    }

    /// Decodes the message in progress and starts a new one.
    fn finish(&mut self) -> (r: Result<Message, NotificationError>)
        requires
            old(self).wf(),
            old(self).pending_frames().len() > 0,
        ensures
            final(self).wf(),
            final(self).pending_frames().len() == 0,
            receive_outcome(old(self).pending_frames(), r),
    {
        let ghost frames = self.frames@;
        let count = self.count;
        let topic = self.topic.take();
        self.count = 0;
        self.frames = Ghost(Seq::empty());
        let topic = match topic {
            Some(Ok(t)) => t,
            Some(Err(e)) => {
                return Err(NotificationError::UnknownTopic(e));
            },
            None => {
                assert(false);
                return Err(NotificationError::InvalidMutlipartLength(count));
            },
        };
        if count == 1 {
            return Err(NotificationError::InvalidMutlipartLength(1));
        }
        if self.data_len > DATA_MAX_LEN {
            return Err(NotificationError::InvalidDataLength(self.data_len));
        }
        if count == 2 {
            return Err(NotificationError::InvalidMutlipartLength(2));
        }
        let sequence = match self.sequence {
            Some(s) => s,
            None => {
                return Err(NotificationError::InvalidSequenceLength(self.sequence_len));
            },
        };
        if count > 3 {
            return Err(NotificationError::InvalidMutlipartLength(count));
        }
        let raw = RawMessage::from_parts(topic, self.data.as_slice(), sequence);
        Message::try_from_raw_message(raw)
    }
}

} // verus!
