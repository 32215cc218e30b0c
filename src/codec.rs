//! The wire form of a message: a JSON object
//! `{"user":{"username":..,"uuid":..,"color":[r,g,b]},"message_type":"Join","content":..}`.
//! Decoding never fails loudly: whatever cannot be read as a message gives
//! `None`, and the caller drops it.

use vstd::prelude::*;
use vstd::string::*;
use crate::json::{
    member_pairs, object_members, opt_str, parse_object, parse_rgb, parse_string, parse_uuid,
    rgb_text, rgb_value, string_json, string_value, uuid_text, uuid_value, write_rgb, write_string,
    write_uuid,
};
use crate::message::{MessageView, SerializableMessage, SerializableMessageType};
use crate::user::{color_of_id, User, UserView};

verus! {

/// The tag under which each kind travels.
pub open spec fn kind_name(k: SerializableMessageType) -> Seq<char> {
    match k {
        SerializableMessageType::Join => "Join"@,
        SerializableMessageType::Leave => "Leave"@,
        SerializableMessageType::Rename => "Rename"@,
        SerializableMessageType::Text => "Text"@,
    }
}

/// The kind whose tag is `s`; any other tag is no kind.
pub open spec fn kind_from_name(s: Seq<char>) -> Option<SerializableMessageType> {
    if s == "Join"@ {
        Some(SerializableMessageType::Join)
    } else if s == "Leave"@ {
        Some(SerializableMessageType::Leave)
    } else if s == "Rename"@ {
        Some(SerializableMessageType::Rename)
    } else if s == "Text"@ {
        Some(SerializableMessageType::Text)
    } else {
        None
    }
}

/// The value of the first member named `key`.
pub open spec fn lookup(ms: Seq<(Seq<char>, Seq<char>)>, key: Seq<char>) -> Option<Seq<char>>
    decreases ms.len(),
{
    if ms.len() == 0 {
        None
    } else if ms[0].0 == key {
        Some(ms[0].1)
    } else {
        lookup(ms.drop_first(), key)
    }
}

/// The wire text of a sender, given the JSON texts of its parts.
pub open spec fn user_text(name: Seq<char>, id: Seq<char>, color: Seq<char>) -> Seq<char> {
    "{\"username\":"@ + name + ",\"uuid\":"@ + id + ",\"color\":"@ + color + "}"@
}

/// The wire text of a message, given the JSON texts of its parts.
pub open spec fn wire_text(
    name: Seq<char>,
    id: Seq<char>,
    color: Seq<char>,
    kind: Seq<char>,
    content: Seq<char>,
) -> Seq<char> {
    "{\"user\":"@ + user_text(name, id, color) + ",\"message_type\":\""@ + kind + "\",\"content\":"@
        + content + "}"@
}

/// The wire text of a message, or `None` where serde_json writes no text for
/// one of its strings.
pub open spec fn encoded(m: MessageView) -> Option<Seq<char>> {
    match (string_json(m.sender.name), string_json(m.content)) {
        (Some(n), Some(t)) => Some(
            wire_text(n, uuid_text(m.sender.id), rgb_text(m.sender.color), kind_name(m.kind), t),
        ),
        _ => None,
    }
}

/// The sender that the members of a `user` object describe. Name and
/// identifier are required; a missing colour is derived from the identifier.
pub open spec fn user_from_members(ms: Seq<(Seq<char>, Seq<char>)>) -> Option<UserView> {
    match (lookup(ms, "username"@), lookup(ms, "uuid"@)) {
        (Some(n), Some(i)) => match (string_value(n), uuid_value(i)) {
            (Some(name), Some(id)) => match lookup(ms, "color"@) {
                None => Some(UserView { name, id, color: color_of_id(id) }),
                Some(c) => match rgb_value(c) {
                    Some(color) => Some(UserView { name, id, color }),
                    None => None,
                },
            },
            _ => None,
        },
        _ => None,
    }
}

/// The message that a wire text holds, if any. Members other than the three
/// named ones are ignored.
pub open spec fn message_from_text(text: Seq<char>) -> Option<MessageView> {
    match object_members(text) {
        None => None,
        Some(ms) => match (lookup(ms, "user"@), lookup(ms, "message_type"@), lookup(ms, "content"@)) {
            (Some(u), Some(k), Some(c)) => match (object_members(u), string_value(k), string_value(c)) {
                (Some(ums), Some(kn), Some(content)) => match (user_from_members(ums), kind_from_name(kn)) {
                    (Some(sender), Some(kind)) => Some(MessageView { sender, kind, content }),
                    _ => None,
                },
                _ => None,
            },
            _ => None,
        },
    }
}

pub open spec fn opt_message(o: Option<SerializableMessage>) -> Option<MessageView> {
    match o {
        Some(m) => Some(m@),
        None => None,
    }
}

/// The tag of a kind.
pub fn kind_tag(k: SerializableMessageType) -> (r: &'static str)
    ensures
        r@ == kind_name(k),
{
    match k {
        SerializableMessageType::Join => "Join",
        SerializableMessageType::Leave => "Leave",
        SerializableMessageType::Rename => "Rename",
        SerializableMessageType::Text => "Text",
    }
}

/// The kind that a tag names.
pub fn kind_of_tag(s: &String) -> (r: Option<SerializableMessageType>)
    ensures
        r == kind_from_name(s@),
{
    if *s == String::from_str("Join") {
        Some(SerializableMessageType::Join)
    } else if *s == String::from_str("Leave") {
        Some(SerializableMessageType::Leave)
    } else if *s == String::from_str("Rename") {
        Some(SerializableMessageType::Rename)
    } else if *s == String::from_str("Text") {
        Some(SerializableMessageType::Text)
    } else {
        None
    }
}

/// The value of the first member named `key`.
fn member(ms: &Vec<(String, String)>, key: &str) -> (r: Option<String>)
    ensures
        opt_str(r) == lookup(member_pairs(ms@), key@),
{
    let ghost all = member_pairs(ms@);
    let wanted = String::from_str(key);
    let mut i: usize = 0;
    assert(all.subrange(0, all.len() as int) =~= all);
    while i < ms.len()
        invariant
            i <= ms.len(),
            all == member_pairs(ms@),
            wanted@ == key@,
            lookup(all, key@) == lookup(all.subrange(i as int, all.len() as int), key@),
        decreases ms.len() - i,
    {
        let ghost rest = all.subrange(i as int, all.len() as int);
        assert(rest[0] == all[i as int]);
        assert(rest.drop_first() =~= all.subrange(i + 1, all.len() as int));
        assert(all[i as int] == (ms@[i as int].0@, ms@[i as int].1@));
        if ms[i].0 == wanted {
            let v = ms[i].1.clone();
            assert(v@ == all[i as int].1);
            assert(lookup(rest, key@) == Some(all[i as int].1));
            return Some(v);
        }
        i = i + 1;
    }
    assert(all.subrange(i as int, all.len() as int).len() == 0);
    None
}

/// Writes a message in its wire form; every message has one.
pub fn encode_message(m: &SerializableMessage) -> (r: Option<String>)
    ensures
        r is Some,
        opt_str(r) == encoded(m@),
{
    let user = m.get_user();
    let name = user.get_username();
    let content = m.get_content();
    let n = match write_string(name.as_str()) {
        Some(n) => n,
        None => return None,
    };
    let i = match write_uuid(user.get_uuid()) {
        Some(i) => i,
        None => return None,
    };
    let c = match write_rgb(user.get_color()) {
        Some(c) => c,
        None => return None,
    };
    let t = match write_string(content.as_str()) {
        Some(t) => t,
        None => return None,
    };
    let mut u = String::from_str("{\"username\":");
    u.append(n.as_str());
    u.append(",\"uuid\":");
    u.append(i.as_str());
    u.append(",\"color\":");
    u.append(c.as_str());
    u.append("}");
    let mut out = String::from_str("{\"user\":");
    out.append(u.as_str());
    out.append(",\"message_type\":\"");
    out.append(kind_tag(m.get_message_type()));
    out.append("\",\"content\":");
    out.append(t.as_str());
    out.append("}");
    Some(out)
}

/// Reads the sender from the members of a `user` object.
fn decode_user(ms: &Vec<(String, String)>) -> (r: Option<User>)
    ensures
        match r {
            Some(u) => user_from_members(member_pairs(ms@)) == Some(u@),
            None => user_from_members(member_pairs(ms@)) is None,
        },
{
    let n = match member(ms, "username") {
        Some(n) => n,
        None => return None,
    };
    let i = match member(ms, "uuid") {
        Some(i) => i,
        None => return None,
    };
    let name = match parse_string(n.as_str()) {
        Some(name) => name,
        None => return None,
    };
    let id = match parse_uuid(i.as_str()) {
        Some(id) => id,
        None => return None,
    };
    let color = match member(ms, "color") {
        None => crate::user::color_from_id(id),
        Some(c) => match parse_rgb(c.as_str()) {
            Some(color) => color,
            None => return None,
        },
    };
    Some(User::from_parts(name, id, color))
}

/// Reads a message from its wire form; `None` for anything that is not one.
pub fn decode_message(text: &str) -> (r: Option<SerializableMessage>)
    ensures
        opt_message(r) == message_from_text(text@),
{
    let ms = match parse_object(text) {
        Some(ms) => ms,
        None => return None,
    };
    let u = match member(&ms, "user") {
        Some(u) => u,
        None => return None,
    };
    let k = match member(&ms, "message_type") {
        Some(k) => k,
        None => return None,
    };
    let c = match member(&ms, "content") {
        Some(c) => c,
        None => return None,
    };
    let ums = match parse_object(u.as_str()) {
        Some(ums) => ums,
        None => return None,
    };
    let kn = match parse_string(k.as_str()) {
        Some(kn) => kn,
        None => return None,
    };
    let content = match parse_string(c.as_str()) {
        Some(content) => content,
        None => return None,
    };
    let sender = match decode_user(&ums) {
        Some(sender) => sender,
        None => return None,
    };
    let kind = match kind_of_tag(&kn) {
        Some(kind) => kind,
        None => return None,
    };
    Some(SerializableMessage::new(sender, kind, content))
}

/// Every kind travels under a tag that reads back as that kind.
pub proof fn lemma_kind_tag_round_trip(k: SerializableMessageType)
    ensures
        kind_from_name(kind_name(k)) == Some(k),
{
    reveal_strlit("Join");
    reveal_strlit("Leave");
    reveal_strlit("Rename");
    reveal_strlit("Text");
    assert("Join"@[0] == 'J' && "Leave"@[0] == 'L' && "Rename"@[0] == 'R' && "Text"@[0] == 'T');
    assert("Leave"@ != "Join"@);
    assert("Rename"@ != "Join"@ && "Rename"@ != "Leave"@);
    assert("Text"@ != "Join"@ && "Text"@ != "Leave"@ && "Text"@ != "Rename"@);
}

/// Malformed input gives no message: text that is not one JSON object, an
/// object without a `message_type`, `user` or `content` member, and an object
/// whose `message_type` names no kind.
pub proof fn lemma_malformed_text_gives_nothing(text: Seq<char>)
    ensures
        object_members(text) is None ==> message_from_text(text) is None,
        (object_members(text) matches Some(ms) && (lookup(ms, "message_type"@) is None
            || lookup(ms, "user"@) is None || lookup(ms, "content"@) is None))
            ==> message_from_text(text) is None,
        (object_members(text) matches Some(ms) && lookup(ms, "message_type"@) matches Some(k)
            && string_value(k) matches Some(n) && kind_from_name(n) is None)
            ==> message_from_text(text) is None,
{
}

/// The codec's own half of the round trip: where serde_json writes each part
/// of `m` and reads each written text back as what was written, decoding the
/// wire text of `m` gives `m` again.
pub proof fn lemma_round_trip_given_json_reads_back(m: MessageView, n: Seq<char>, t: Seq<char>)
    requires
        string_json(m.sender.name) == Some(n),
        string_json(m.content) == Some(t),
        string_value(n) == Some(m.sender.name),
        uuid_value(uuid_text(m.sender.id)) == Some(m.sender.id),
        rgb_value(rgb_text(m.sender.color)) == Some(m.sender.color),
        string_value(t) == Some(m.content),
        string_value("\""@ + kind_name(m.kind) + "\""@) == Some(kind_name(m.kind)),
        object_members(
            wire_text(n, uuid_text(m.sender.id), rgb_text(m.sender.color), kind_name(m.kind), t),
        ) matches Some(ms) && lookup(ms, "user"@) == Some(
            user_text(n, uuid_text(m.sender.id), rgb_text(m.sender.color)),
        ) && lookup(ms, "message_type"@) == Some("\""@ + kind_name(m.kind) + "\""@) && lookup(
            ms,
            "content"@,
        ) == Some(t),
        object_members(user_text(n, uuid_text(m.sender.id), rgb_text(m.sender.color))) matches Some(
            ums,
        ) && lookup(ums, "username"@) == Some(n) && lookup(ums, "uuid"@) == Some(
            uuid_text(m.sender.id),
        ) && lookup(ums, "color"@) == Some(rgb_text(m.sender.color)),
    ensures
        encoded(m) == Some(
            wire_text(n, uuid_text(m.sender.id), rgb_text(m.sender.color), kind_name(m.kind), t),
        ),
        message_from_text(
            wire_text(n, uuid_text(m.sender.id), rgb_text(m.sender.color), kind_name(m.kind), t),
        ) == Some(m),
{
    lemma_kind_tag_round_trip(m.kind);
}

} // verus!
