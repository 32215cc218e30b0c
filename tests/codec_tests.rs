use sillirc_lib::codec::{decode_message, encode_message, kind_of_tag, kind_tag};
use sillirc_lib::message::{SerializableMessage, SerializableMessageType};
use sillirc_lib::user::User;

const ANN_ID: u128 = 0x67e5_5044_10b1_426f_9247_bb68_0e5f_e0c8;

fn ann() -> User {
    User::from_parts(String::from("Ann"), ANN_ID, (10, 20, 30))
}

fn round_trip(m: &SerializableMessage) -> SerializableMessage {
    let text = encode_message(m).expect("encodes");
    decode_message(&text).expect("decodes")
}

fn assert_same(a: &SerializableMessage, b: &SerializableMessage) {
    assert_eq!(a.get_message_type(), b.get_message_type());
    assert_eq!(a.get_content(), b.get_content());
    assert_eq!(a.get_user().get_username(), b.get_user().get_username());
    assert_eq!(a.get_user().get_uuid(), b.get_user().get_uuid());
    assert_eq!(a.get_user().get_color(), b.get_user().get_color());
}

#[test]
fn join_round_trip() {
    let m = SerializableMessage::new(ann(), SerializableMessageType::Join, String::new());
    let d = round_trip(&m);
    assert_eq!(d.get_message_type(), SerializableMessageType::Join);
    assert_eq!(d.get_content(), "");
    assert_same(&m, &d);
}

#[test]
fn every_kind_round_trips() {
    for (kind, content) in [
        (SerializableMessageType::Join, ""),
        (SerializableMessageType::Leave, ""),
        (SerializableMessageType::Rename, "Bea"),
        (SerializableMessageType::Text, "hello \"world\"\n\\ ünïcödé ✓"),
    ] {
        let m = SerializableMessage::new(ann(), kind, String::from(content));
        assert_same(&m, &round_trip(&m));
    }
}

#[test]
fn odd_names_round_trip() {
    let u = User::from_parts(String::from("{\"user\":}, \u{0}"), u128::MAX, (255, 0, 255));
    let m = SerializableMessage::new(u, SerializableMessageType::Text, String::from("}"));
    assert_same(&m, &round_trip(&m));
}

#[test]
fn wire_text_is_exact() {
    let m = SerializableMessage::new(ann(), SerializableMessageType::Rename, String::from("A\"B"));
    assert_eq!(
        encode_message(&m).unwrap(),
        "{\"user\":{\"username\":\"Ann\",\"uuid\":\"67e55044-10b1-426f-9247-bb680e5fe0c8\",\
         \"color\":[10,20,30]},\"message_type\":\"Rename\",\"content\":\"A\\\"B\"}"
    );
}

#[test]
fn decodes_other_member_order_and_spacing() {
    let text = r#" { "content" : "hi", "extra": [1, {"x": null}],
        "message_type": "Text",
        "user": {"color": [1, 2, 3], "uuid": "67E55044-10B1-426F-9247-BB680E5FE0C8", "username": "Zed"} } "#;
    let m = decode_message(text).expect("decodes");
    assert_eq!(m.get_message_type(), SerializableMessageType::Text);
    assert_eq!(m.get_content(), "hi");
    assert_eq!(m.get_user().get_username(), "Zed");
    assert_eq!(m.get_user().get_uuid(), ANN_ID);
    assert_eq!(m.get_user().get_color(), (1, 2, 3));
}

#[test]
fn missing_color_is_derived_from_id() {
    let text = r#"{"user":{"username":"Ann","uuid":"67e55044-10b1-426f-9247-bb680e5fe0c8"},"message_type":"Leave","content":""}"#;
    let m = decode_message(text).expect("decodes");
    assert_eq!(m.get_user().get_color(), (0x67, 0xe5, 0x50));
}

#[test]
fn non_json_is_dropped() {
    assert!(decode_message("not json at all").is_none());
    assert!(decode_message("").is_none());
    assert!(decode_message("\u{1}\u{7f}\u{ffff}").is_none());
    assert!(decode_message("[1,2,3]").is_none());
    assert!(decode_message("\"Join\"").is_none());
}

#[test]
fn truncated_text_is_dropped() {
    let m = SerializableMessage::new(ann(), SerializableMessageType::Text, String::from("hi"));
    let text = encode_message(&m).unwrap();
    for cut in 0..text.len() {
        assert!(decode_message(&text[..cut]).is_none(), "prefix of length {cut}");
    }
}

#[test]
fn missing_kind_is_dropped() {
    let text = r#"{"user":{"username":"Ann","uuid":"67e55044-10b1-426f-9247-bb680e5fe0c8","color":[1,2,3]},"content":"x"}"#;
    assert!(decode_message(text).is_none());
}

#[test]
fn unknown_kind_is_dropped() {
    for kind in ["\"Shout\"", "\"join\"", "0", "null", "[\"Join\"]"] {
        let text = format!(
            r#"{{"user":{{"username":"Ann","uuid":"67e55044-10b1-426f-9247-bb680e5fe0c8","color":[1,2,3]}},"message_type":{kind},"content":"x"}}"#
        );
        assert!(decode_message(&text).is_none(), "{kind}");
    }
}

#[test]
fn bad_sender_is_dropped() {
    for user in [
        r#"{"username":"Ann","color":[1,2,3]}"#,
        r#"{"uuid":"67e55044-10b1-426f-9247-bb680e5fe0c8","color":[1,2,3]}"#,
        r#"{"username":"Ann","uuid":"not-a-uuid","color":[1,2,3]}"#,
        r#"{"username":"Ann","uuid":"67e55044-10b1-426f-9247-bb680e5fe0c8","color":[1,2,256]}"#,
        r#"{"username":"Ann","uuid":"67e55044-10b1-426f-9247-bb680e5fe0c8","color":[1,2]}"#,
        r#"{"username":7,"uuid":"67e55044-10b1-426f-9247-bb680e5fe0c8"}"#,
        r#""Ann""#,
    ] {
        let text = format!(r#"{{"user":{user},"message_type":"Text","content":"x"}}"#);
        assert!(decode_message(&text).is_none(), "{user}");
    }
}

#[test]
fn missing_content_is_dropped() {
    let text = r#"{"user":{"username":"Ann","uuid":"67e55044-10b1-426f-9247-bb680e5fe0c8"},"message_type":"Text"}"#;
    assert!(decode_message(text).is_none());
}

#[test]
fn kind_tags_name_kinds() {
    for kind in [
        SerializableMessageType::Join,
        SerializableMessageType::Leave,
        SerializableMessageType::Rename,
        SerializableMessageType::Text,
    ] {
        assert_eq!(kind_of_tag(&String::from(kind_tag(kind))), Some(kind));
    }
    assert_eq!(kind_tag(SerializableMessageType::Rename), "Rename");
    assert_eq!(kind_of_tag(&String::from("Texts")), None);
}
