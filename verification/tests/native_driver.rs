use ewebsock::message::Frame;
use ewebsock::native::{
    final_event, Action, Awaiting, Failure, Input, IoKind, NativeDriver, Phase, ReadOutcome, Stage,
};
use ewebsock::outgoing::Poll;
use ewebsock::{WsEvent, WsMessage};
use std::ops::ControlFlow;
use std::time::Duration;

fn go_on() -> Input {
    Input::Verdict(ControlFlow::Continue(()))
}

fn stop() -> Input {
    Input::Verdict(ControlFlow::Break(()))
}

fn idle(kind: IoKind) -> Input {
    Input::Incoming(ReadOutcome::Failed {
        kind,
        description: "nothing yet".to_string(),
    })
}

fn open_driver(receive_only: bool) -> NativeDriver {
    let mut driver = NativeDriver::new(None, receive_only);
    assert_eq!(
        driver.step(Input::Handshake(Ok(()))),
        Action::Emit(WsEvent::Opened)
    );
    driver
}

fn reading_driver() -> NativeDriver {
    let mut driver = open_driver(false);
    assert_eq!(driver.step(go_on()), Action::PollOutgoing);
    assert_eq!(driver.step(Input::Outgoing(Poll::Empty)), Action::Read);
    driver
}

#[test]
fn new_driver_waits_for_the_handshake() {
    let driver = NativeDriver::new(Some(Duration::from_millis(10)), false);
    assert_eq!(driver.phase(), Phase::Connecting);
    assert_eq!(driver.awaiting(), Awaiting::Handshake);
    assert!(driver.accepts(&Input::Handshake(Ok(()))));
    assert!(!driver.accepts(&go_on()));
    assert!(!driver.accepts(&Input::Completed));
    assert!(!driver.accepts(&Input::Outgoing(Poll::Empty)));
}

#[test]
fn handshake_failure_is_returned_and_nothing_is_emitted() {
    let mut driver = NativeDriver::new(Some(Duration::from_millis(10)), false);
    let action = driver.step(Input::Handshake(Err("Connection refused".to_string())));
    assert_eq!(
        action,
        Action::Finish(Err(Failure {
            stage: Stage::Connect,
            cause: "Connection refused".to_string()
        }))
    );
    assert_eq!(driver.phase(), Phase::Failed);
    assert_eq!(driver.awaiting(), Awaiting::Nothing);
    assert!(!driver.accepts(&go_on()));
    assert!(!driver.accepts(&Input::Handshake(Ok(()))));
}

#[test]
fn read_timeout_is_applied_before_opened() {
    let mut driver = NativeDriver::new(Some(Duration::from_millis(25)), false);
    assert_eq!(
        driver.step(Input::Handshake(Ok(()))),
        Action::SetReadTimeout(Duration::from_millis(25))
    );
    assert_eq!(driver.phase(), Phase::Connecting);
    assert_eq!(
        driver.step(Input::TimeoutSet(Ok(()))),
        Action::Emit(WsEvent::Opened)
    );
    assert_eq!(driver.step(go_on()), Action::PollOutgoing);
    assert_eq!(driver.phase(), Phase::Open);
}

#[test]
fn zero_read_timeout_is_not_applied() {
    let mut driver = NativeDriver::new(Some(Duration::from_millis(0)), false);
    assert_eq!(
        driver.step(Input::Handshake(Ok(()))),
        Action::Emit(WsEvent::Opened)
    );
}

#[test]
fn absent_read_timeout_is_not_applied() {
    let mut driver = NativeDriver::new(None, false);
    assert_eq!(
        driver.step(Input::Handshake(Ok(()))),
        Action::Emit(WsEvent::Opened)
    );
}

#[test]
fn failing_to_set_the_read_timeout_fails_the_connection() {
    let mut driver = NativeDriver::new(Some(Duration::from_secs(1)), false);
    driver.step(Input::Handshake(Ok(())));
    let action = driver.step(Input::TimeoutSet(Err("bad socket".to_string())));
    assert_eq!(
        action,
        Action::Finish(Err(Failure {
            stage: Stage::ReadTimeout,
            cause: "bad socket".to_string()
        }))
    );
    assert_eq!(driver.phase(), Phase::Failed);
}

#[test]
fn break_on_opened_closes_the_connection() {
    let mut driver = open_driver(false);
    assert_eq!(driver.step(stop()), Action::Close);
    assert_eq!(driver.phase(), Phase::Closing);
    assert_eq!(
        driver.step(Input::CloseResult(Ok(()))),
        Action::Finish(Ok(()))
    );
    assert_eq!(driver.phase(), Phase::Closed);
}

#[test]
fn outgoing_message_is_written_as_its_frame() {
    let mut driver = open_driver(false);
    assert_eq!(driver.step(go_on()), Action::PollOutgoing);
    assert_eq!(
        driver.step(Input::Outgoing(Poll::Message(WsMessage::Text(
            "Hello!".to_string()
        )))),
        Action::Write(Frame::Text("Hello!".to_string()))
    );
    assert_eq!(driver.step(Input::Written(Ok(()))), Action::Read);
    assert_eq!(driver.awaiting(), Awaiting::Incoming);
}

#[test]
fn receive_only_messages_are_not_accepted_for_writing() {
    let mut driver = open_driver(false);
    driver.step(go_on());
    assert!(!driver.accepts(&Input::Outgoing(Poll::Message(WsMessage::Ping(vec![1])))));
    assert!(!driver.accepts(&Input::Outgoing(Poll::Message(WsMessage::Pong(vec![1])))));
    assert!(!driver.accepts(&Input::Outgoing(Poll::Message(WsMessage::Unknown(
        "x".to_string()
    )))));
    assert!(driver.accepts(&Input::Outgoing(Poll::Message(WsMessage::Binary(vec![1])))));
}

#[test]
fn write_failure_shuts_down_and_fails() {
    let mut driver = open_driver(false);
    driver.step(go_on());
    driver.step(Input::Outgoing(Poll::Message(WsMessage::Binary(vec![1]))));
    assert_eq!(
        driver.step(Input::Written(Err("broken pipe".to_string()))),
        Action::Shutdown
    );
    assert_eq!(driver.phase(), Phase::Failed);
    let action = driver.step(Input::Completed);
    assert_eq!(
        action,
        Action::Finish(Err(Failure {
            stage: Stage::Send,
            cause: "broken pipe".to_string()
        }))
    );
    assert_eq!(driver.awaiting(), Awaiting::Nothing);
}

#[test]
fn disconnected_queue_closes_in_order() {
    let mut driver = open_driver(false);
    driver.step(go_on());
    assert_eq!(
        driver.step(Input::Outgoing(Poll::Disconnected)),
        Action::Shutdown
    );
    assert_eq!(driver.phase(), Phase::Closing);
    assert_eq!(driver.step(Input::Completed), Action::Finish(Ok(())));
    assert_eq!(driver.phase(), Phase::Closed);
    assert_eq!(final_event(&Ok(())), None);
}

#[test]
fn each_data_frame_becomes_its_message() {
    let cases = vec![
        (
            Frame::Text("t".to_string()),
            WsMessage::Text("t".to_string()),
        ),
        (Frame::Binary(vec![1, 2]), WsMessage::Binary(vec![1, 2])),
        (Frame::Ping(vec![3]), WsMessage::Ping(vec![3])),
        (Frame::Pong(vec![4]), WsMessage::Pong(vec![4])),
    ];
    for (frame, message) in cases {
        let mut driver = reading_driver();
        assert_eq!(
            driver.step(Input::Incoming(ReadOutcome::Frame(frame))),
            Action::Emit(WsEvent::Message(message))
        );
        assert_eq!(driver.awaiting(), Awaiting::Verdict);
        assert_eq!(driver.step(go_on()), Action::PollOutgoing);
    }
}

#[test]
fn close_frame_emits_closed_and_finishes_in_order() {
    let mut driver = reading_driver();
    assert_eq!(
        driver.step(Input::Incoming(ReadOutcome::Frame(Frame::Close))),
        Action::Emit(WsEvent::Closed)
    );
    assert_eq!(driver.phase(), Phase::Closed);
    assert_eq!(driver.step(go_on()), Action::Finish(Ok(())));
    assert_eq!(driver.awaiting(), Awaiting::Nothing);
    assert!(!driver.accepts(&Input::Incoming(ReadOutcome::Frame(Frame::Close))));
}

#[test]
fn break_on_closed_still_finishes_in_order() {
    let mut driver = reading_driver();
    driver.step(Input::Incoming(ReadOutcome::Frame(Frame::Close)));
    assert_eq!(driver.step(stop()), Action::Finish(Ok(())));
    assert_eq!(driver.phase(), Phase::Closed);
}

#[test]
fn raw_frame_is_no_event() {
    let mut driver = reading_driver();
    assert_eq!(
        driver.step(Input::Incoming(ReadOutcome::Frame(Frame::Raw))),
        Action::PollOutgoing
    );
    assert_eq!(driver.phase(), Phase::Open);
}

#[test]
fn idle_round_yields() {
    let mut driver = reading_driver();
    assert_eq!(driver.step(idle(IoKind::WouldBlock)), Action::Yield);
    assert_eq!(driver.awaiting(), Awaiting::Resumed);
    assert_eq!(driver.step(Input::Completed), Action::PollOutgoing);
    assert_eq!(driver.step(Input::Outgoing(Poll::Empty)), Action::Read);
    assert_eq!(driver.step(idle(IoKind::TimedOut)), Action::Yield);
    assert_eq!(driver.phase(), Phase::Open);
}

#[test]
fn round_that_wrote_does_not_yield() {
    let mut driver = open_driver(false);
    driver.step(go_on());
    driver.step(Input::Outgoing(Poll::Message(WsMessage::Binary(vec![1]))));
    assert_eq!(driver.step(Input::Written(Ok(()))), Action::Read);
    assert_eq!(driver.step(idle(IoKind::WouldBlock)), Action::PollOutgoing);
    assert_eq!(driver.step(Input::Outgoing(Poll::Empty)), Action::Read);
    assert_eq!(driver.step(idle(IoKind::WouldBlock)), Action::Yield);
}

#[test]
fn read_failure_fails_the_connection() {
    let mut driver = reading_driver();
    let action = driver.step(Input::Incoming(ReadOutcome::Failed {
        kind: IoKind::Other,
        description: "Space limit exceeded: Message too long".to_string(),
    }));
    assert_eq!(
        action,
        Action::Finish(Err(Failure {
            stage: Stage::Read,
            cause: "Space limit exceeded: Message too long".to_string()
        }))
    );
    assert_eq!(driver.phase(), Phase::Failed);
    assert_eq!(driver.awaiting(), Awaiting::Nothing);
}

#[test]
fn close_failure_after_break_fails_the_connection() {
    let mut driver = reading_driver();
    driver.step(Input::Incoming(ReadOutcome::Frame(Frame::Binary(vec![1]))));
    assert_eq!(driver.step(stop()), Action::Close);
    let action = driver.step(Input::CloseResult(Err("reset".to_string())));
    assert_eq!(
        action,
        Action::Finish(Err(Failure {
            stage: Stage::Close,
            cause: "reset".to_string()
        }))
    );
    assert_eq!(driver.phase(), Phase::Failed);
}

#[test]
fn receive_only_driver_never_polls() {
    let mut driver = open_driver(true);
    assert_eq!(driver.step(go_on()), Action::Read);
    assert!(!driver.accepts(&Input::Outgoing(Poll::Empty)));
    assert_eq!(
        driver.step(Input::Incoming(ReadOutcome::Frame(Frame::Text(
            "x".to_string()
        )))),
        Action::Emit(WsEvent::Message(WsMessage::Text("x".to_string())))
    );
    assert_eq!(driver.step(go_on()), Action::Read);
    assert_eq!(driver.step(idle(IoKind::WouldBlock)), Action::Yield);
    assert_eq!(driver.step(Input::Completed), Action::Read);
}

#[test]
fn failure_messages() {
    let cases = vec![
        (Stage::Connect, "Connect: boom"),
        (Stage::ReadTimeout, "failed to set read timeout: boom"),
        (Stage::Send, "send: boom"),
        (Stage::Read, "read: boom"),
        (Stage::Close, "Failed to close connection: boom"),
    ];
    for (stage, expected) in cases {
        let failure = Failure {
            stage,
            cause: "boom".to_string(),
        };
        assert_eq!(failure.message(), expected);
    }
}

#[test]
fn final_event_is_one_error_or_nothing() {
    assert_eq!(final_event(&Ok(())), None);
    let failed = Err(Failure {
        stage: Stage::Read,
        cause: "Connection reset by peer".to_string(),
    });
    assert_eq!(
        final_event(&failed),
        Some(WsEvent::Error("read: Connection reset by peer".to_string()))
    );
}
