use socket_sandbox::dispatcher::{
    dispatch, reader_close_event, reader_frame_event, settle_open, settle_send, Action, ReaderEnd,
};
use socket_sandbox::registry::Registry;
use socket_sandbox::session::{CloseReason, Event, FailureReason, Message};

#[test]
fn send_to_never_opened_id_fails_with_unknown_session() {
    let mut reg = Registry::new();
    for id in [0u8, 1, 7, 255] {
        let r = dispatch(
            &mut reg,
            Message::Message { id, payload: String::from("hello"), num_bytes: 5 },
        );
        assert_eq!(
            r.event,
            Some(Event::SessionFailed { id, reason: FailureReason::UnknownSession })
        );
        assert!(matches!(r.action, Action::Stay));
    }
    // the registry is still untouched: a later open of any of those ids proceeds
    let r = dispatch(&mut reg, Message::NewClient { id: 7, ip: String::from("ws://a") });
    assert!(matches!(r.action, Action::Connect { id: 7, .. }));
    assert_eq!(r.event, None);
}

#[test]
fn failed_open_never_registers_the_id() {
    let mut reg = Registry::new();
    let r = dispatch(
        &mut reg,
        Message::NewClient { id: 1, ip: String::from("ws://unreachable.test") },
    );
    assert!(matches!(r.action, Action::Connect { id: 1, .. }));
    // the handshake fails
    let ev = settle_open(&mut reg, 1, None);
    assert_eq!(ev, Event::SessionFailed { id: 1, reason: FailureReason::ConnectError });
    // a second open of the same id proceeds to the handshake again
    let r = dispatch(&mut reg, Message::NewClient { id: 1, ip: String::from("ws://echo.test") });
    assert!(matches!(r.action, Action::Connect { id: 1, .. }));
    assert_eq!(r.event, None);
    // and this time it succeeds
    let ev = settle_open(&mut reg, 1, Some(40));
    assert_eq!(ev, Event::SessionOpened { id: 1 });
}

#[test]
fn open_of_a_live_id_fails_fast_with_already_open() {
    let mut reg = Registry::new();
    dispatch(&mut reg, Message::NewClient { id: 2, ip: String::from("ws://a") });
    settle_open(&mut reg, 2, Some(11));
    let r = dispatch(&mut reg, Message::NewClient { id: 2, ip: String::from("ws://b") });
    assert_eq!(r.event, Some(Event::SessionFailed { id: 2, reason: FailureReason::AlreadyOpen }));
    assert!(matches!(r.action, Action::Stay));
    // the existing entry is untouched: a send still goes to transport 11
    let r = dispatch(&mut reg, Message::Message { id: 2, payload: String::from("m"), num_bytes: 1 });
    assert!(matches!(r.action, Action::Write { id: 2, transport: 11, .. }));
}

#[test]
fn close_then_send_yields_unknown_session() {
    let mut reg = Registry::new();
    dispatch(&mut reg, Message::NewClient { id: 5, ip: String::from("ws://a") });
    settle_open(&mut reg, 5, Some(3));
    let r = dispatch(&mut reg, Message::Close { id: 5 });
    assert_eq!(
        r.event,
        Some(Event::SessionClosed { id: 5, reason: CloseReason::RequestedByLocal })
    );
    assert!(matches!(r.action, Action::Release { id: 5, transport: 3 }));
    // idempotent teardown: the handle is gone
    let r = dispatch(&mut reg, Message::Message { id: 5, payload: String::from("x"), num_bytes: 1 });
    assert_eq!(
        r.event,
        Some(Event::SessionFailed { id: 5, reason: FailureReason::UnknownSession })
    );
    assert!(matches!(r.action, Action::Stay));
}

#[test]
fn close_of_an_unknown_id_is_an_idempotent_acknowledgement() {
    let mut reg = Registry::new();
    let r = dispatch(&mut reg, Message::Close { id: 9 });
    assert_eq!(
        r.event,
        Some(Event::SessionClosed { id: 9, reason: CloseReason::RequestedByLocal })
    );
    assert!(matches!(r.action, Action::Stay));
    // closing again says the same
    let r = dispatch(&mut reg, Message::Close { id: 9 });
    assert_eq!(
        r.event,
        Some(Event::SessionClosed { id: 9, reason: CloseReason::RequestedByLocal })
    );
}

#[test]
fn failed_write_tears_the_session_down() {
    let mut reg = Registry::new();
    dispatch(&mut reg, Message::NewClient { id: 4, ip: String::from("ws://a") });
    settle_open(&mut reg, 4, Some(8));
    let r = dispatch(&mut reg, Message::Message { id: 4, payload: String::from("x"), num_bytes: 1 });
    assert!(matches!(r.action, Action::Write { id: 4, transport: 8, .. }));
    // the transport write fails: full teardown, reported once
    let ev = settle_send(&mut reg, 4, false);
    assert_eq!(ev, Some(Event::SessionClosed { id: 4, reason: CloseReason::ReadError }));
    let r = dispatch(&mut reg, Message::Message { id: 4, payload: String::from("y"), num_bytes: 1 });
    assert_eq!(
        r.event,
        Some(Event::SessionFailed { id: 4, reason: FailureReason::UnknownSession })
    );
}

#[test]
fn delivered_write_is_silent() {
    let mut reg = Registry::new();
    dispatch(&mut reg, Message::NewClient { id: 4, ip: String::from("ws://a") });
    settle_open(&mut reg, 4, Some(8));
    dispatch(&mut reg, Message::Message { id: 4, payload: String::from("x"), num_bytes: 1 });
    let ev = settle_send(&mut reg, 4, true);
    assert_eq!(ev, None);
    // the session is still live
    let r = dispatch(&mut reg, Message::Message { id: 4, payload: String::from("y"), num_bytes: 1 });
    assert!(matches!(r.action, Action::Write { id: 4, transport: 8, .. }));
}

#[test]
fn two_opens_with_distinct_ids_are_independent() {
    let mut reg = Registry::new();
    dispatch(&mut reg, Message::NewClient { id: 1, ip: String::from("ws://a") });
    let ev1 = settle_open(&mut reg, 1, Some(100));
    dispatch(&mut reg, Message::NewClient { id: 2, ip: String::from("ws://b") });
    let ev2 = settle_open(&mut reg, 2, Some(200));
    assert_eq!(ev1, Event::SessionOpened { id: 1 });
    assert_eq!(ev2, Event::SessionOpened { id: 2 });
    // each id still reaches its own transport — no cross-talk
    let r1 = dispatch(&mut reg, Message::Message { id: 1, payload: String::from("m1"), num_bytes: 2 });
    let r2 = dispatch(&mut reg, Message::Message { id: 2, payload: String::from("m2"), num_bytes: 2 });
    assert!(matches!(r1.action, Action::Write { id: 1, transport: 100, .. }));
    assert!(matches!(r2.action, Action::Write { id: 2, transport: 200, .. }));
    // frames from each reader are tagged with that reader's id alone
    let f1 = reader_frame_event(1, String::from("a"), 1);
    let f2 = reader_frame_event(2, String::from("b"), 1);
    assert_eq!(f1, Event::MessageReceived { id: 1, payload: String::from("a"), num_bytes: 1 });
    assert_eq!(f2, Event::MessageReceived { id: 2, payload: String::from("b"), num_bytes: 1 });
    // closing one leaves the other live
    dispatch(&mut reg, Message::Close { id: 1 });
    let r2 = dispatch(&mut reg, Message::Message { id: 2, payload: String::from("m3"), num_bytes: 2 });
    assert!(matches!(r2.action, Action::Write { id: 2, transport: 200, .. }));
}

#[test]
fn reader_end_reasons_map_to_close_reasons() {
    assert_eq!(
        reader_close_event(3, ReaderEnd::Stopped),
        Event::SessionClosed { id: 3, reason: CloseReason::RequestedByLocal }
    );
    assert_eq!(
        reader_close_event(3, ReaderEnd::RemoteClosed),
        Event::SessionClosed { id: 3, reason: CloseReason::RemoteClosed }
    );
    assert_eq!(
        reader_close_event(3, ReaderEnd::Failed),
        Event::SessionClosed { id: 3, reason: CloseReason::ReadError }
    );
}

#[test]
fn echo_session_scenario() {
    let mut reg = Registry::new();

    // OpenSession{1, "ws://echo.test"} -> SessionOpened{1}
    let r = dispatch(&mut reg, Message::NewClient { id: 1, ip: String::from("ws://echo.test") });
    assert!(matches!(r.action, Action::Connect { id: 1, .. }));
    let ev = settle_open(&mut reg, 1, Some(1));
    assert_eq!(ev, Event::SessionOpened { id: 1 });

    // SendMessage{1, "hi"} -> no event unless echoed
    let r = dispatch(&mut reg, Message::Message { id: 1, payload: String::from("hi"), num_bytes: 0 });
    assert!(matches!(r.action, Action::Write { id: 1, transport: 1, .. }));
    assert_eq!(r.event, None);
    assert_eq!(settle_send(&mut reg, 1, true), None);

    // the remote echoes "hi" -> MessageReceived{1, "hi", 2}
    let ev = reader_frame_event(1, String::from("hi"), 2);
    assert_eq!(ev, Event::MessageReceived { id: 1, payload: String::from("hi"), num_bytes: 2 });

    // CloseSession{1} -> SessionClosed{1, RequestedByLocal}
    let r = dispatch(&mut reg, Message::Close { id: 1 });
    assert_eq!(
        r.event,
        Some(Event::SessionClosed { id: 1, reason: CloseReason::RequestedByLocal })
    );

    // a subsequent SendMessage{1, "x"} -> SessionFailed{1, UnknownSession}
    let r = dispatch(&mut reg, Message::Message { id: 1, payload: String::from("x"), num_bytes: 1 });
    assert_eq!(
        r.event,
        Some(Event::SessionFailed { id: 1, reason: FailureReason::UnknownSession })
    );
}
