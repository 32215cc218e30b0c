//! Protocol messages: a sender, an event kind and a content string.

use vstd::prelude::*;
use crate::user::{User, UserView};

verus! {

/// The four events exchanged over the wire.
#[derive(Clone, Copy, Debug, PartialEq, Eq, Structural)]
pub enum SerializableMessageType {
    Join,
    Leave,
    Rename,
    Text,
}

/// The mathematical value of a message.
pub struct MessageView {
    pub sender: UserView,
    pub kind: SerializableMessageType,
    pub content: Seq<char>,
}

/// One protocol event. The content is empty for `Join` and `Leave`, the new
/// name for `Rename` and the text for `Text`; the constructor does not check
/// this.
pub struct SerializableMessage {
    user: User,
    message_type: SerializableMessageType,
    content: String,
}

impl View for SerializableMessage {
    type V = MessageView;

    closed spec fn view(&self) -> MessageView {
        MessageView { sender: self.user@, kind: self.message_type, content: self.content@ }
    }
}

impl Clone for SerializableMessage {
    fn clone(&self) -> (r: Self)
        ensures
            r@ == self@,
    {
        SerializableMessage {
            user: self.user.clone(),
            message_type: self.message_type,
            content: self.content.clone(),
        }
    }
}

impl SerializableMessage {
    pub fn new(user: User, message_type: SerializableMessageType, content: String) -> (r: Self)
        ensures
            r@ == (MessageView { sender: user@, kind: message_type, content: content@ }),
    {
        SerializableMessage { user, message_type, content }
    }

    pub fn get_user(&self) -> (r: User)
        ensures
            r@ == self@.sender,
    {
        self.user.clone()
    }

    pub fn get_message_type(&self) -> (r: SerializableMessageType)
        ensures
            r == self@.kind,
    {
        self.message_type
    }

    pub fn get_content(&self) -> (r: String)
        ensures
            r@ == self@.content,
    {
        self.content.clone()
    }
}

} // verus!
