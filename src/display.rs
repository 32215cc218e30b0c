//! How a received message reads in a chat log, and which messages a client
//! leaves out because it sent them itself.

use vstd::prelude::*;
use vstd::string::*;
use crate::message::{MessageView, SerializableMessage, SerializableMessageType};
use crate::user::{Rgb, User, UserView};

verus! {

/// A message was sent by this participant when its sender has the same
/// identifier.
pub open spec fn is_own(me: UserView, m: MessageView) -> bool {
    me.id == m.sender.id
}

/// The words between the sender's name and the detail.
pub open spec fn joiner_of(k: SerializableMessageType) -> Seq<char> {
    match k {
        SerializableMessageType::Join => " has joined the chat."@,
        SerializableMessageType::Leave => " has left the chat"@,
        SerializableMessageType::Rename => " changed their name to "@,
        SerializableMessageType::Text => ": "@,
    }
}

/// The detail after the joiner: the content for a rename or a text, nothing
/// for a join or a leave.
pub open spec fn detail_of(m: MessageView) -> Seq<char> {
    match m.kind {
        SerializableMessageType::Join | SerializableMessageType::Leave => Seq::empty(),
        _ => m.content,
    }
}

/// One line of a chat log: the sender's name in the sender's colour, the
/// joiner, and the detail, itself in the sender's colour for a rename.
pub struct LogLine {
    pub name: String,
    pub color: Rgb,
    pub joiner: String,
    pub detail: String,
    pub detail_colored: bool,
}

/// Whether `message` was sent by `me`.
pub fn is_own_message(me: &User, message: &SerializableMessage) -> (r: bool)
    ensures
        r == is_own(me@, message@),
{
    me.get_uuid() == message.get_user().get_uuid()
}

/// The log line of a message.
pub fn log_line(message: &SerializableMessage) -> (r: LogLine)
    ensures
        r.name@ == message@.sender.name,
        r.color == message@.sender.color,
        r.joiner@ == joiner_of(message@.kind),
        r.detail@ == detail_of(message@),
        r.detail_colored == (message@.kind == SerializableMessageType::Rename),
{
    let sender = message.get_user();
    let kind = message.get_message_type();
    let joiner = match kind {
        SerializableMessageType::Join => " has joined the chat.",
        SerializableMessageType::Leave => " has left the chat",
        SerializableMessageType::Rename => " changed their name to ",
        SerializableMessageType::Text => ": ",
    };
    let detail = match kind {
        SerializableMessageType::Join | SerializableMessageType::Leave => String::new(),
        _ => message.get_content(),
    };
    LogLine {
        name: sender.get_username(),
        color: sender.get_color(),
        joiner: String::from_str(joiner),
        detail,
        detail_colored: matches!(kind, SerializableMessageType::Rename),
    }
}

/// The log line of a message, or `None` for one that `me` sent.
pub fn incoming_line(me: &User, message: &SerializableMessage) -> (r: Option<LogLine>)
    ensures
        is_own(me@, message@) <==> r is None,
        r matches Some(l) ==> (l.name@ == message@.sender.name && l.color == message@.sender.color
            && l.joiner@ == joiner_of(message@.kind) && l.detail@ == detail_of(message@)
            && l.detail_colored == (message@.kind == SerializableMessageType::Rename)),
{
    if is_own_message(me, message) {
        None
    } else {
        Some(log_line(message))
    }
}

} // verus!
