use sillirc_lib::codec::encode_message;
use sillirc_lib::frame::{decode_frame, decode_frames, Frame};
use sillirc_lib::link::{next_link_state, LinkAction, LinkEvent, LinkState};
use sillirc_lib::message::{SerializableMessage, SerializableMessageType};
use sillirc_lib::networker::Networker;
use sillirc_lib::user::User;

fn ann() -> User {
    User::from_parts(String::from("Ann"), 7, (10, 20, 30))
}

fn wire(kind: SerializableMessageType, content: &str) -> String {
    encode_message(&SerializableMessage::new(ann(), kind, String::from(content))).unwrap()
}

#[test]
fn corrupt_frame_between_valid_ones_is_skipped() {
    let text = wire(SerializableMessageType::Text, "hello");
    let rename = wire(SerializableMessageType::Rename, "Bea");
    let frames = vec![
        Frame::Text(text.clone()),
        Frame::Text(String::from(&text[..text.len() / 2])),
        Frame::Text(rename),
    ];
    let got = decode_frames(&frames);
    assert_eq!(got.len(), 2);
    assert_eq!(got[0].get_message_type(), SerializableMessageType::Text);
    assert_eq!(got[0].get_content(), "hello");
    assert_eq!(got[1].get_message_type(), SerializableMessageType::Rename);
    assert_eq!(got[1].get_content(), "Bea");
}

#[test]
fn binary_frames_are_read_as_utf8() {
    let bytes = wire(SerializableMessageType::Leave, "").into_bytes();
    let m = decode_frame(&Frame::Binary(bytes)).expect("decodes");
    assert_eq!(m.get_message_type(), SerializableMessageType::Leave);
    assert_eq!(m.get_user().get_username(), "Ann");
}

#[test]
fn unreadable_frames_are_dropped() {
    let mut bytes = wire(SerializableMessageType::Join, "").into_bytes();
    bytes.push(0xff);
    assert!(decode_frame(&Frame::Binary(bytes)).is_none());
    assert!(decode_frame(&Frame::Binary(vec![0xc3, 0x28])).is_none());
    assert!(decode_frame(&Frame::Failed).is_none());
    assert!(decode_frames(&vec![Frame::Failed, Frame::Text(String::from("{}"))]).is_empty());
}

#[test]
fn connects_after_two_refusals() {
    let mut state = LinkState::Connecting;
    let mut actions = Vec::new();
    for e in [LinkEvent::AttemptFailed, LinkEvent::AttemptFailed, LinkEvent::AttemptSucceeded] {
        let (next, action) = next_link_state(state, e);
        state = next;
        actions.push(action);
    }
    assert_eq!(state, LinkState::Connected);
    assert_eq!(actions, vec![LinkAction::Attempt, LinkAction::Attempt, LinkAction::Serve]);
}

#[test]
fn lost_transport_closes_for_good() {
    let (s, a) = next_link_state(LinkState::Connected, LinkEvent::TransportEnded);
    assert_eq!((s, a), (LinkState::Closed, LinkAction::Stop));
    assert_eq!(
        next_link_state(LinkState::Closed, LinkEvent::AttemptSucceeded),
        (LinkState::Closed, LinkAction::Idle)
    );
    assert_eq!(
        next_link_state(LinkState::Connected, LinkEvent::AttemptFailed),
        (LinkState::Connected, LinkAction::Idle)
    );
}

#[test]
fn sends_arrive_in_order() {
    let (tx, mut rx) = futures::channel::mpsc::unbounded::<String>();
    let mut nw = Networker::new(tx);
    let contents = ["one", "two", "three", "four"];
    for c in contents {
        assert!(nw.send(SerializableMessage::new(ann(), SerializableMessageType::Text, String::from(c))));
    }
    for c in contents {
        let frame = rx.try_recv().expect("queued");
        assert_eq!(frame, wire(SerializableMessageType::Text, c));
        let m = decode_frame(&Frame::Text(frame)).unwrap();
        assert_eq!(m.get_content(), c);
    }
    assert!(rx.try_recv().is_err());
}

#[test]
fn send_after_close_reports_failure() {
    let (tx, rx) = futures::channel::mpsc::unbounded::<String>();
    let mut nw = Networker::new(tx);
    assert!(nw.is_connected());
    drop(rx);
    assert!(!nw.is_connected());
    assert!(!nw.send(SerializableMessage::new(ann(), SerializableMessageType::Leave, String::new())));
}
