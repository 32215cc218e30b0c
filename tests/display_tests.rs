use sillirc_lib::display::{incoming_line, is_own_message, log_line};
use sillirc_lib::message::{SerializableMessage, SerializableMessageType};
use sillirc_lib::user::User;

fn msg(kind: SerializableMessageType, content: &str) -> SerializableMessage {
    SerializableMessage::new(User::from_parts(String::from("Ann"), 1, (1, 2, 3)), kind, String::from(content))
}

#[test]
fn own_messages_are_recognised_by_id() {
    let me = User::from_parts(String::from("Other"), 1, (9, 9, 9));
    let stranger = User::from_parts(String::from("Ann"), 2, (1, 2, 3));
    let m = msg(SerializableMessageType::Text, "hi");
    assert!(is_own_message(&me, &m));
    assert!(!is_own_message(&stranger, &m));
    assert!(incoming_line(&me, &m).is_none());
    assert!(incoming_line(&stranger, &m).is_some());
}

#[test]
fn log_lines_per_kind() {
    let l = log_line(&msg(SerializableMessageType::Join, ""));
    assert_eq!((l.name.as_str(), l.joiner.as_str(), l.detail.as_str()), ("Ann", " has joined the chat.", ""));
    assert_eq!(l.color, (1, 2, 3));
    let l = log_line(&msg(SerializableMessageType::Leave, "ignored"));
    assert_eq!((l.joiner.as_str(), l.detail.as_str()), (" has left the chat", ""));
    let l = log_line(&msg(SerializableMessageType::Rename, "Bea"));
    assert_eq!((l.joiner.as_str(), l.detail.as_str(), l.detail_colored), (" changed their name to ", "Bea", true));
    let l = log_line(&msg(SerializableMessageType::Text, "hello"));
    assert_eq!((l.joiner.as_str(), l.detail.as_str(), l.detail_colored), (": ", "hello", false));
}
