//! The outbound side: messages are written in their wire form and queued on
//! an unbounded channel, which a single forwarder drains to the transport in
//! the order the frames were queued.

use vstd::prelude::*;
use futures::channel::mpsc::UnboundedSender;
use crate::codec::{encode_message, encoded};
use crate::message::SerializableMessage;

verus! {

/// futures' unbounded channel sender, carried as an opaque value.
#[verifier::external_type_specification]
#[verifier::external_body]
#[verifier::reject_recursive_types(T)]
pub struct ExUnboundedSender<T>(UnboundedSender<T>);

/// Relies on futures' UnboundedSender::is_closed: whether the receiving side
/// is gone or the channel was closed.
#[verifier::external_body]
fn channel_closed(tx: &UnboundedSender<String>) -> (r: bool) {
    tx.is_closed()
}

/// The sending handle of a live connection. `queued` is every frame that
/// this handle has put on the channel, in the order they went in; the
/// channel hands them to its single receiver in that order.
pub struct Networker {
    tx: UnboundedSender<String>,
    queued: Ghost<Seq<Seq<char>>>,
}

impl Networker {
    /// The frames this handle has queued, oldest first.
    pub closed spec fn queued(&self) -> Seq<Seq<char>> {
        self.queued@
    }

    /// A handle that queues wire frames on `tx`, whose receiving side feeds
    /// the transport.
    pub fn new(tx: UnboundedSender<String>) -> (r: Networker)
        ensures
            r.queued() == Seq::<Seq<char>>::empty(),
    {
        Networker { tx, queued: Ghost(Seq::empty()) }
    }

    /// Relies on futures' UnboundedSender::unbounded_send: on success the
    /// frame is pushed at the back of the channel's first-in first-out queue;
    /// on failure (the receiving side is gone) nothing is queued.
    #[verifier::external_body]
    fn enqueue_frame(&mut self, frame: String) -> (r: bool)
        ensures
            r ==> final(self).queued() == old(self).queued().push(frame@),
            !r ==> final(self).queued() == old(self).queued(),
    {
        self.tx.unbounded_send(frame).is_ok()
    }

    /// Whether the connection still takes messages: false once the transport
    /// has ended and the forwarder has stopped.
    pub fn is_connected(&self) -> (r: bool) {
        !channel_closed(&self.tx)
    }

    /// Queues `message` in its wire form, after every frame queued before.
    /// Returns whether it was queued: a connection whose forwarder is gone
    /// reports `false`, and nothing is queued then.
    pub fn send(&mut self, message: SerializableMessage) -> (r: bool)
        ensures
            encoded(message@) is Some,
            r ==> final(self).queued() == old(self).queued().push(encoded(message@)->Some_0),
            !r ==> final(self).queued() == old(self).queued(),
    {
        match encode_message(&message) {
            Some(frame) => self.enqueue_frame(frame),
            None => false,
        }
    }
}

} // verus!
