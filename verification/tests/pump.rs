use hiven_rs::client::{CloseFrame, Error};
use hiven_rs::gateway::{DecodeError, Frame, OpCodeHello, OpCodeLogin};
use hiven_rs::pump::{ParseMode, PumpAction, PumpEvent, SocketMessage, TransportPump};

fn text(text: &str) -> PumpEvent {
    PumpEvent::Socket(SocketMessage::Text(text.to_string()))
}

#[test]
fn frames_go_on_to_the_session() {
    for mode in [ParseMode::Strict, ParseMode::Lenient] {
        let pump = TransportPump::new(mode);
        assert_eq!(
            pump.step(text("{\"op\":1,\"d\":{\"hbt_int\":30000}}")),
            PumpAction::Forward(Frame::Hello(OpCodeHello { heart_beat: 30000 }))
        );
        assert_eq!(pump.step(text("{\"op\":3}")), PumpAction::Forward(Frame::HeartBeat));
    }
}

#[test]
fn an_unknown_event_is_passed_over_by_a_lenient_pump() {
    let pump = TransportPump::new(ParseMode::Lenient);
    assert_eq!(pump.step(text("{\"op\":0,\"e\":\"UNKNOWN_EVENT\",\"d\":{}}")), PumpAction::Skip);
    assert_eq!(pump.step(text("{\"op\":3}")), PumpAction::Forward(Frame::HeartBeat));
}

#[test]
fn an_unknown_event_ends_a_strict_pump() {
    let pump = TransportPump::new(ParseMode::Strict);
    assert_eq!(
        pump.step(text("{\"op\":0,\"e\":\"UNKNOWN_EVENT\",\"d\":{}}")),
        PumpAction::Finish(Err(Error::Serialization(DecodeError::UnknownEvent)))
    );
}

#[test]
fn any_other_failure_ends_the_pump() {
    for mode in [ParseMode::Strict, ParseMode::Lenient] {
        let pump = TransportPump::new(mode);
        assert_eq!(
            pump.step(text("{\"op\":99}")),
            PumpAction::Finish(Err(Error::Serialization(DecodeError::UnknownOpcode(99))))
        );
        assert_eq!(
            pump.step(text("not json")),
            PumpAction::Finish(Err(Error::Serialization(DecodeError::Syntax)))
        );
        assert_eq!(
            pump.step(text("{\"op\":0,\"e\":\"UNKNOWN_EVENT\"}")),
            PumpAction::Finish(Err(Error::Serialization(DecodeError::MissingData)))
        );
        assert_eq!(
            pump.after_decoding(Err(DecodeError::InvalidPayload)),
            PumpAction::Finish(Err(Error::Serialization(DecodeError::InvalidPayload)))
        );
    }
}

#[test]
fn a_close_message_ends_the_pump_with_its_reason() {
    let pump = TransportPump::new(ParseMode::Lenient);
    let frame = CloseFrame { code: 1000, reason: "bye".to_string() };
    assert_eq!(
        pump.step(PumpEvent::Socket(SocketMessage::Close(Some(frame.clone())))),
        PumpAction::Finish(Err(Error::SocketClose(Some(frame))))
    );
    assert_eq!(
        pump.step(PumpEvent::Socket(SocketMessage::Close(None))),
        PumpAction::Finish(Err(Error::SocketClose(None)))
    );
}

#[test]
fn any_other_message_breaks_the_protocol() {
    let pump = TransportPump::new(ParseMode::Lenient);
    assert_eq!(
        pump.step(PumpEvent::Socket(SocketMessage::Other("Binary([1, 2])".to_string()))),
        PumpAction::Finish(Err(Error::ExpectationFailed(
            "Text or Close frame",
            "Binary([1, 2])".to_string()
        )))
    );
}

#[test]
fn outbound_frames_are_written() {
    let pump = TransportPump::new(ParseMode::Lenient);
    assert_eq!(
        pump.step(PumpEvent::Outbound(Frame::HeartBeat)),
        PumpAction::Write("{\"op\":3}".to_string())
    );
    assert_eq!(
        pump.step(PumpEvent::Outbound(Frame::Login(OpCodeLogin { token: "t".to_string() }))),
        PumpAction::Write("{\"op\":2,\"d\":{\"token\":\"t\"}}".to_string())
    );
}

#[test]
fn closed_queues_end_the_pump_without_an_error() {
    let pump = TransportPump::new(ParseMode::Strict);
    for event in [PumpEvent::OutboundClosed, PumpEvent::InboundClosed, PumpEvent::WriteFailed] {
        assert_eq!(pump.step(event), PumpAction::Finish(Ok(())));
    }
}
