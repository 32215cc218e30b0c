//! The inbound side: frames read from the transport become messages, and
//! every frame that does not hold one is dropped without ending the stream.

use vstd::prelude::*;
use crate::codec::{decode_message, message_from_text, opt_message};
use crate::json::{utf8_string, utf8_text};
use crate::message::{MessageView, SerializableMessage};

verus! {

/// One item read from the transport.
pub enum Frame {
    /// A text frame (or the reason text of a closing frame).
    Text(String),
    /// A binary, ping or pong frame, with its payload.
    Binary(Vec<u8>),
    /// The transport reported an error instead of a frame.
    Failed,
}

/// The message that a frame carries: a text frame is read as it stands, a
/// binary one when its payload is UTF-8, and a failed read carries none.
pub open spec fn frame_message(f: Frame) -> Option<MessageView> {
    match f {
        Frame::Text(s) => message_from_text(s@),
        Frame::Binary(b) => match utf8_text(b@) {
            Some(t) => message_from_text(t),
            None => None,
        },
        Frame::Failed => None,
    }
}

/// The messages that a sequence of frames carries, in arrival order.
pub open spec fn stream_messages(fs: Seq<Frame>) -> Seq<MessageView>
    decreases fs.len(),
{
    if fs.len() == 0 {
        Seq::empty()
    } else {
        let rest = stream_messages(fs.drop_last());
        match frame_message(fs.last()) {
            Some(m) => rest.push(m),
            None => rest,
        }
    }
}

pub open spec fn message_views(ms: Seq<SerializableMessage>) -> Seq<MessageView> {
    ms.map_values(|m: SerializableMessage| m@)
}

/// The message in one frame, if it holds one.
pub fn decode_frame(f: &Frame) -> (r: Option<SerializableMessage>)
    ensures
        opt_message(r) == frame_message(*f),
{
    match f {
        Frame::Text(s) => decode_message(s.as_str()),
        Frame::Binary(b) => match utf8_string(b) {
            Some(t) => decode_message(t.as_str()),
            None => None,
        },
        Frame::Failed => None,
    }
}

/// The messages that the frames hold, in the order the frames came; each
/// frame without one is skipped.
pub fn decode_frames(fs: &Vec<Frame>) -> (r: Vec<SerializableMessage>)
    ensures
        message_views(r@) == stream_messages(fs@),
{
    let mut out: Vec<SerializableMessage> = Vec::new();
    let mut i: usize = 0;
    assert(fs@.subrange(0, 0) =~= Seq::<Frame>::empty());
    while i < fs.len()
        invariant
            i <= fs.len(),
            message_views(out@) == stream_messages(fs@.subrange(0, i as int)),
        decreases fs.len() - i,
    {
        let ghost before = out@;
        assert(fs@.subrange(0, i + 1).drop_last() =~= fs@.subrange(0, i as int));
        assert(fs@.subrange(0, i + 1).last() == fs@[i as int]);
        match decode_frame(&fs[i]) {
            Some(m) => {
                out.push(m);
                assert(message_views(out@) =~= message_views(before).push(m@));
            },
            None => {},
        }
        i = i + 1;
    }
    assert(fs@.subrange(0, fs.len() as int) =~= fs@);
    out
}

/// Frames are read independently: the messages of two stretches of frames
/// read one after the other are those of the first followed by those of the
/// second, so a frame that holds no message takes nothing from its
/// neighbours.
pub proof fn lemma_stream_concat(a: Seq<Frame>, b: Seq<Frame>)
    ensures
        stream_messages(a + b) == stream_messages(a) + stream_messages(b),
    decreases b.len(),
{
    if b.len() == 0 {
        assert(a + b =~= a);
        assert(stream_messages(a) + stream_messages(b) =~= stream_messages(a));
    } else {
        lemma_stream_concat(a, b.drop_last());
        assert((a + b).drop_last() =~= a + b.drop_last());
        assert((a + b).last() == b.last());
        match frame_message(b.last()) {
            Some(m) => {
                assert(stream_messages(a) + stream_messages(b.drop_last()).push(m)
                    =~= (stream_messages(a) + stream_messages(b.drop_last())).push(m));
            },
            None => {},
        }
    }
}

/// A frame that holds no message is dropped: the messages of a stream do not
/// change when such a frame is inserted anywhere in it.
pub proof fn lemma_bad_frame_dropped(a: Seq<Frame>, f: Frame, b: Seq<Frame>)
    requires
        frame_message(f) is None,
    ensures
        stream_messages(a.push(f) + b) == stream_messages(a + b),
{
    lemma_stream_concat(a.push(f), b);
    lemma_stream_concat(a, b);
    assert(a.push(f).drop_last() =~= a);
}

} // verus!
