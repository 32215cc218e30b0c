//! The state of the graphical client and the decisions it takes on user
//! actions: what to send, and how its own participant record changes.

use vstd::prelude::*;
use crate::message::{MessageView, SerializableMessage, SerializableMessageType};
use crate::user::{color_of_id, is_v4_id, recolored, renamed, Rgb, User, UserView};

verus! {

/// The client's own state between frames: its participant record, whether a
/// rename or a colour choice is under way, and the colour being chosen.
pub struct SillircApp {
    user: User,
    renaming: bool,
    coloring: bool,
    temp_color: Rgb,
}

/// The mathematical value of the client state.
pub struct AppView {
    pub user: UserView,
    pub renaming: bool,
    pub coloring: bool,
    pub temp_color: Rgb,
}

impl View for SillircApp {
    type V = AppView;

    closed spec fn view(&self) -> AppView {
        AppView {
            user: self.user@,
            renaming: self.renaming,
            coloring: self.coloring,
            temp_color: self.temp_color,
        }
    }
}

pub open spec fn msg(sender: UserView, kind: SerializableMessageType, content: Seq<char>) -> MessageView {
    MessageView { sender, kind, content }
}

impl SillircApp {
    /// A client for a participant restored from storage, or for a new
    /// unnamed one when nothing was stored.
    pub fn new(stored: Option<User>) -> (r: SillircApp)
        ensures
            stored matches Some(u) ==> r@.user == u@,
            stored is None ==> (r@.user.name.len() == 0 && is_v4_id(r@.user.id) && r@.user.color
                == color_of_id(r@.user.id)),
            !r@.renaming && !r@.coloring,
            r@.temp_color == (0u8, 0u8, 0u8),
    {
        let user = match stored {
            Some(u) => u,
            None => User::new(String::new()),
        };
        SillircApp { user, renaming: false, coloring: false, temp_color: (0, 0, 0) }
    }

    pub fn user(&self) -> (r: &User)
        ensures
            r@ == self@.user,
    {
        &self.user
    }

    pub fn is_renaming(&self) -> (r: bool)
        ensures
            r == self@.renaming,
    {
        self.renaming
    }

    pub fn is_coloring(&self) -> (r: bool)
        ensures
            r == self@.coloring,
    {
        self.coloring
    }

    pub fn temp_color(&self) -> (r: Rgb)
        ensures
            r == self@.temp_color,
    {
        self.temp_color
    }

    /// Whether the client asks for a name: before the first one, and during
    /// a rename.
    pub fn asks_for_name(&self) -> (r: bool)
        ensures
            r == (self@.user.name.len() == 0 || self@.renaming),
    {
        self.user.is_unnamed() || self.renaming
    }

    /// The message that announces the participant on a new connection; an
    /// unnamed participant announces nothing.
    pub fn join_message(&self) -> (r: Option<SerializableMessage>)
        ensures
            self@.user.name.len() == 0 ==> r is None,
            self@.user.name.len() != 0 ==> (r matches Some(m) && m@ == msg(
                self@.user,
                SerializableMessageType::Join,
                Seq::empty(),
            )),
    {
        if self.user.is_unnamed() {
            None
        } else {
            Some(SerializableMessage::new(self.user.clone(), SerializableMessageType::Join, String::new()))
        }
    }

    /// The message that says goodbye when the client exits.
    pub fn leave_message(&self) -> (r: SerializableMessage)
        ensures
            r@ == msg(self@.user, SerializableMessageType::Leave, Seq::empty()),
    {
        SerializableMessage::new(self.user.clone(), SerializableMessageType::Leave, String::new())
    }

    /// A rename is started only for a participant that has a name.
    pub fn start_rename(&mut self)
        ensures
            final(self)@ == (AppView { renaming: old(self)@.renaming || old(self)@.user.name.len() != 0, ..old(self)@ }),
    {
        if !self.user.is_unnamed() {
            self.renaming = true;
        }
    }

    /// Starts choosing a colour, from the current one.
    pub fn start_coloring(&mut self)
        ensures
            final(self)@ == (AppView { coloring: true, temp_color: old(self)@.user.color, ..old(self)@ }),
    {
        self.temp_color = self.user.get_color();
        self.coloring = true;
    }

    /// Sets the colour being chosen.
    pub fn choose_color(&mut self, color: Rgb)
        ensures
            final(self)@ == (AppView { temp_color: color, ..old(self)@ }),
    {
        self.temp_color = color;
    }

    /// Takes the colour being chosen as the participant's colour.
    pub fn accept_color(&mut self)
        ensures
            final(self)@ == (AppView {
                user: recolored(old(self)@.user, old(self)@.temp_color),
                coloring: false,
                ..old(self)@
            }),
    {
        let user = self.user.clone();
        self.user = user.set_color(self.temp_color);
        self.coloring = false;
    }

    /// A name was entered. An empty one changes nothing and sends nothing.
    /// Otherwise the participant takes it. During a rename it announces the
    /// new name, under its previous one; else it joins, under the new name,
    /// with empty content.
    pub fn submit_name(&mut self, name: String) -> (r: Option<SerializableMessage>)
        ensures
            name@.len() == 0 ==> r is None && final(self)@ == old(self)@,
            name@.len() != 0 ==> {
                &&& old(self)@.renaming ==> (r matches Some(m) && m@ == msg(
                    old(self)@.user,
                    SerializableMessageType::Rename,
                    name@,
                ))
                &&& !old(self)@.renaming ==> (r matches Some(m) && m@ == msg(
                    renamed(old(self)@.user, name@),
                    SerializableMessageType::Join,
                    Seq::empty(),
                ))
                &&& final(self)@ == (AppView {
                    user: renamed(old(self)@.user, name@),
                    renaming: false,
                    ..old(self)@
                })
            },
    {
        if name.as_str().is_empty() {
            return None;
        }
        let user = self.user.clone();
        let renamed_user = user.set_username(name.clone());
        let m = if self.renaming {
            SerializableMessage::new(self.user.clone(), SerializableMessageType::Rename, name)
        } else {
            SerializableMessage::new(renamed_user.clone(), SerializableMessageType::Join, String::new())
        };
        self.user = renamed_user;
        self.renaming = false;
        Some(m)
    }

    /// A line of text was entered: sent as a text message by a named
    /// participant, unless it is empty.
    pub fn submit_text(&self, text: String) -> (r: Option<SerializableMessage>)
        ensures
            (self@.user.name.len() == 0 || text@.len() == 0) ==> r is None,
            (self@.user.name.len() != 0 && text@.len() != 0) ==> (r matches Some(m) && m@ == msg(
                self@.user,
                SerializableMessageType::Text,
                text@,
            )),
    {
        if self.user.is_unnamed() || text.as_str().is_empty() {
            None
        } else {
            Some(SerializableMessage::new(self.user.clone(), SerializableMessageType::Text, text))
        }
    }
}

} // verus!
