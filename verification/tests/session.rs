use hiven_rs::client::Error;
use hiven_rs::data::Message;
use hiven_rs::gateway::{Frame, OpCodeEvent, OpCodeHello, OpCodeLogin};
use hiven_rs::session::{Session, SessionAction, SessionEvent, SessionState};

fn hello(interval: u16) -> SessionEvent {
    SessionEvent::Inbound(Frame::Hello(OpCodeHello { heart_beat: interval }))
}

fn message() -> OpCodeEvent {
    OpCodeEvent::MessageCreate(Message { content: "hi".to_string(), room_id: 1, author_id: 2 })
}

fn active(interval: u16) -> Session {
    let mut session = Session::new("token".to_string());
    session.step(hello(interval));
    session.step(SessionEvent::LoginSent);
    session
}

#[test]
fn the_handshake_sends_login_after_hello() {
    let mut session = Session::new("token".to_string());
    assert_eq!(session.state(), SessionState::AwaitingHello);
    assert_eq!(session.heartbeat_interval(), None);
    assert_eq!(
        session.step(hello(30000)),
        SessionAction::Send(Frame::Login(OpCodeLogin { token: "token".to_string() }))
    );
    assert_eq!(session.state(), SessionState::Authenticating { interval: 30000 });
    assert_eq!(session.heartbeat_interval(), None);
    assert_eq!(session.step(SessionEvent::LoginSent), SessionAction::Activate { interval: 30000 });
    assert_eq!(session.state(), SessionState::Active { interval: 30000 });
    assert_eq!(session.heartbeat_interval(), Some(30000));
    assert!(!session.is_cancelled());
}

#[test]
fn a_first_frame_other_than_hello_ends_the_session() {
    let mut session = Session::new("token".to_string());
    let action = session.step(SessionEvent::Inbound(Frame::HeartBeat));
    assert_eq!(
        action,
        SessionAction::Finish(Err(Error::ExpectationFailed(
            "Frame::Hello(...)",
            "HeartBeat".to_string()
        )))
    );
    assert_eq!(session.state(), SessionState::Closed);
    assert!(session.is_cancelled());
    for event in [
        SessionEvent::LoginSent,
        SessionEvent::HeartbeatDue,
        hello(50),
        SessionEvent::Inbound(Frame::HeartBeat),
        SessionEvent::InboundClosed,
        SessionEvent::SendFailed,
        SessionEvent::Stop,
    ] {
        assert_eq!(session.step(event), SessionAction::Nothing);
        assert_eq!(session.state(), SessionState::Closed);
    }
}

#[test]
fn the_description_of_an_unexpected_frame_shows_its_content() {
    let mut session = Session::new("token".to_string());
    let login = Frame::Login(OpCodeLogin { token: "abc".to_string() });
    assert_eq!(
        session.step(SessionEvent::Inbound(login)),
        SessionAction::Finish(Err(Error::ExpectationFailed(
            "Frame::Hello(...)",
            "Login(OpCodeLogin { token: \"abc\" })".to_string()
        )))
    );
}

#[test]
fn the_interval_is_the_one_that_hello_named() {
    for interval in [0, 1, 50, 65535] {
        let mut session = active(interval);
        assert_eq!(session.heartbeat_interval(), Some(interval));
        session.step(SessionEvent::HeartbeatDue);
        session.step(SessionEvent::Inbound(Frame::Event(message())));
        assert_eq!(session.heartbeat_interval(), Some(interval));
    }
}

#[test]
fn an_empty_session_ends_gracefully() {
    let mut session = Session::new("token".to_string());
    assert_eq!(session.step(SessionEvent::InboundClosed), SessionAction::Finish(Ok(())));
    assert_eq!(session.state(), SessionState::Closed);
}

#[test]
fn one_heartbeat_for_each_interval() {
    let mut session = active(50);
    for _ in 0..3 {
        assert_eq!(session.heartbeat_interval(), Some(50));
        assert_eq!(session.step(SessionEvent::HeartbeatDue), SessionAction::Send(Frame::HeartBeat));
        assert_eq!(session.state(), SessionState::Active { interval: 50 });
    }
}

#[test]
fn no_heartbeat_before_the_session_is_active() {
    let mut session = Session::new("token".to_string());
    assert_eq!(session.step(SessionEvent::HeartbeatDue), SessionAction::Nothing);
    session.step(hello(50));
    assert_eq!(session.step(SessionEvent::HeartbeatDue), SessionAction::Nothing);
    assert_eq!(session.state(), SessionState::Authenticating { interval: 50 });
}

#[test]
fn events_are_dispatched() {
    let mut session = active(50);
    assert_eq!(
        session.step(SessionEvent::Inbound(Frame::Event(message()))),
        SessionAction::Dispatch(message())
    );
    assert_eq!(session.state(), SessionState::Active { interval: 50 });
}

#[test]
fn a_frame_that_is_no_event_ends_an_active_session() {
    let mut session = active(50);
    assert_eq!(
        session.step(SessionEvent::Inbound(Frame::HeartBeat)),
        SessionAction::Finish(Err(Error::ExpectationFailed(
            "Frame::Event(...)",
            "HeartBeat".to_string()
        )))
    );
    assert_eq!(session.state(), SessionState::Closed);
    let mut session = active(50);
    assert!(matches!(
        session.step(hello(50)),
        SessionAction::Finish(Err(Error::ExpectationFailed("Frame::Event(...)", _)))
    ));
}

#[test]
fn closed_queues_end_the_session_without_an_error() {
    for event in [SessionEvent::InboundClosed, SessionEvent::SendFailed] {
        let mut session = active(50);
        assert_eq!(session.step(event.clone()), SessionAction::Finish(Ok(())));
        assert!(session.is_cancelled());
        let mut session = Session::new("token".to_string());
        session.step(hello(50));
        assert_eq!(session.step(event), SessionAction::Finish(Ok(())));
        assert!(session.is_cancelled());
    }
}

#[test]
fn stopping_twice_ends_the_session_once() {
    let mut session = active(50);
    assert_eq!(session.stop(), SessionAction::Finish(Ok(())));
    assert!(session.is_cancelled());
    assert_eq!(session.stop(), SessionAction::Nothing);
    assert_eq!(session.step(SessionEvent::HeartbeatDue), SessionAction::Nothing);
    assert_eq!(session.heartbeat_interval(), None);
    assert_eq!(session.state(), SessionState::Closed);
}

#[test]
fn stopping_before_the_handshake() {
    let mut session = Session::new("token".to_string());
    assert_eq!(session.stop(), SessionAction::Finish(Ok(())));
    assert_eq!(session.step(hello(50)), SessionAction::Nothing);
}
