use ewebsock::message::{incoming_message, outgoing_frame, Frame};
use ewebsock::{WsEvent, WsMessage};

#[test]
fn binary_and_text_are_sendable() {
    assert!(WsMessage::Binary(vec![1, 2, 3]).is_sendable());
    assert!(WsMessage::Binary(vec![]).is_sendable());
    assert!(WsMessage::Text("hello".to_string()).is_sendable());
}

#[test]
fn ping_pong_and_unknown_are_receive_only() {
    assert!(!WsMessage::Ping(vec![1]).is_sendable());
    assert!(!WsMessage::Pong(vec![1]).is_sendable());
    assert!(!WsMessage::Unknown("what".to_string()).is_sendable());
    assert!(!WsMessage::Ping(vec![]).is_sendable());
}

#[test]
fn outgoing_frame_keeps_kind_and_payload() {
    assert_eq!(
        outgoing_frame(WsMessage::Text("ping".to_string())),
        Frame::Text("ping".to_string())
    );
    assert_eq!(
        outgoing_frame(WsMessage::Binary(vec![0, 255, 7])),
        Frame::Binary(vec![0, 255, 7])
    );
}

#[test]
fn incoming_frames_are_classified() {
    assert_eq!(
        incoming_message(Frame::Text("a".to_string())),
        Some(WsMessage::Text("a".to_string()))
    );
    assert_eq!(
        incoming_message(Frame::Binary(vec![9])),
        Some(WsMessage::Binary(vec![9]))
    );
    assert_eq!(
        incoming_message(Frame::Ping(vec![1, 2])),
        Some(WsMessage::Ping(vec![1, 2]))
    );
    assert_eq!(
        incoming_message(Frame::Pong(vec![3])),
        Some(WsMessage::Pong(vec![3]))
    );
    assert_eq!(incoming_message(Frame::Close), None);
    assert_eq!(incoming_message(Frame::Raw), None);
}

#[test]
fn binary_payload_survives_the_round_trip() {
    let payload: Vec<u8> = (0..4096u32).map(|i| (i % 251) as u8).collect();
    let frame = outgoing_frame(WsMessage::Binary(payload.clone()));
    assert_eq!(
        incoming_message(frame),
        Some(WsMessage::Binary(payload))
    );
}

#[test]
fn text_payload_survives_the_round_trip() {
    let frame = outgoing_frame(WsMessage::Text("gr\u{fc}\u{df}e \u{1F980}".to_string()));
    assert_eq!(
        incoming_message(frame),
        Some(WsMessage::Text("gr\u{fc}\u{df}e \u{1F980}".to_string()))
    );
}

#[test]
fn events_compare_by_content() {
    assert_eq!(WsEvent::Opened, WsEvent::Opened);
    assert_ne!(WsEvent::Opened, WsEvent::Closed);
    assert_ne!(
        WsEvent::Message(WsMessage::Text("a".to_string())),
        WsEvent::Message(WsMessage::Text("b".to_string()))
    );
    let event = WsEvent::Error("boom".to_string());
    assert_eq!(event.clone(), event);
}
