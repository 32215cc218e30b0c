//! The participant record: a name, a 128-bit identifier and a display colour.

use vstd::prelude::*;

verus! {

/// Red, green and blue components of a display colour.
pub type Rgb = (u8, u8, u8);

/// The colour derived from an identifier: its first three bytes, most
/// significant first, as red, green and blue.
pub open spec fn color_of_id(id: u128) -> Rgb {
    ((id >> 120u128) as u8, (id >> 112u128) as u8, (id >> 104u128) as u8)
}

/// Whether an identifier carries the version (random) and variant (RFC 4122)
/// bits of a version-4 UUID.
pub open spec fn is_v4_id(id: u128) -> bool {
    &&& (id >> 76u128) & 0xfu128 == 4u128
    &&& (id >> 62u128) & 0x3u128 == 2u128
}

/// Relies on uuid::Uuid::new_v4, read back as its big-endian u128: a random
/// value whose version and variant bits are those of a version-4 UUID.
#[verifier::external_body]
fn fresh_id() -> (r: u128)
    ensures
        is_v4_id(r),
{
    uuid::Uuid::new_v4().as_u128()
}

/// The colour whose components are the first three bytes of `id`.
pub fn color_from_id(id: u128) -> (r: Rgb)
    ensures
        r == color_of_id(id),
{
    ((id >> 120u128) as u8, (id >> 112u128) as u8, (id >> 104u128) as u8)
}

/// The mathematical value of a participant record.
pub struct UserView {
    pub name: Seq<char>,
    pub id: u128,
    pub color: Rgb,
}

/// The record `v` with its name replaced by `name`.
pub open spec fn renamed(v: UserView, name: Seq<char>) -> UserView {
    UserView { name, ..v }
}

/// The record `v` with its colour replaced by `color`.
pub open spec fn recolored(v: UserView, color: Rgb) -> UserView {
    UserView { color, ..v }
}

/// A chat participant. The identifier is fixed when the record is created;
/// name and colour are replaced only through copy-producing setters.
pub struct User {
    username: String,
    uuid: u128,
    color: Rgb,
}

impl View for User {
    type V = UserView;

    closed spec fn view(&self) -> UserView {
        UserView { name: self.username@, id: self.uuid, color: self.color }
    }
}

impl Clone for User {
    fn clone(&self) -> (r: User)
        ensures
            r@ == self@,
    {
        User { username: self.username.clone(), uuid: self.uuid, color: self.color }
    }
}

impl Default for User {
    /// An unnamed record with a fresh identifier and the colour derived from it.
    fn default() -> (r: User)
        ensures
            r@.name.len() == 0,
            is_v4_id(r@.id),
            r@.color == color_of_id(r@.id),
    {
        User::new(String::new())
    }
}

impl User {
    /// A record with the given name, a fresh random identifier and the colour
    /// derived from that identifier.
    pub fn new(username: String) -> (r: User)
        ensures
            r@.name == username@,
            is_v4_id(r@.id),
            r@.color == color_of_id(r@.id),
    {
        let uuid = fresh_id();
        User { username, uuid, color: color_from_id(uuid) }
    }

    /// A record built from its three parts, as held by a peer or by storage.
    pub fn from_parts(username: String, uuid: u128, color: Rgb) -> (r: User)
        ensures
            r@ == (UserView { name: username@, id: uuid, color }),
    {
        User { username, uuid, color }
    }

    /// Whether the name is empty.
    pub fn is_unnamed(&self) -> (r: bool)
        ensures
            r == (self@.name.len() == 0),
    {
        self.username.as_str().is_empty()
    }

    /// The same participant under another name.
    pub fn set_username(self, new_username: String) -> (r: User)
        ensures
            r@ == renamed(self@, new_username@),
    {
        User { username: new_username, uuid: self.uuid, color: self.color }
    }

    /// The same participant with another colour.
    pub fn set_color(self, new_color: Rgb) -> (r: User)
        ensures
            r@ == recolored(self@, new_color),
    {
        User { username: self.username, uuid: self.uuid, color: new_color }
    }

    pub fn get_username(&self) -> (r: String)
        ensures
            r@ == self@.name,
    {
        self.username.clone()
    }

    pub fn get_uuid(&self) -> (r: u128)
        ensures
            r == self@.id,
    {
        self.uuid
    }

    pub fn get_color(&self) -> (r: Rgb)
        ensures
            r == self@.color,
    {
        self.color
    }
}

/// Renaming keeps the identifier and the colour, takes the new name, and gives
/// a value different from the given one exactly when the name changes.
pub proof fn lemma_rename_keeps_identity(v: UserView, name: Seq<char>)
    ensures
        renamed(v, name).id == v.id,
        renamed(v, name).color == v.color,
        renamed(v, name).name == name,
        (renamed(v, name) == v) <==> (name == v.name),
{
}

/// Recolouring keeps the identifier and the name, takes the new colour, and
/// gives a value different from the given one exactly when the colour changes.
pub proof fn lemma_recolor_keeps_identity(v: UserView, color: Rgb)
    ensures
        recolored(v, color).id == v.id,
        recolored(v, color).name == v.name,
        recolored(v, color).color == color,
        (recolored(v, color) == v) <==> (color == v.color),
{
}

} // verus!
