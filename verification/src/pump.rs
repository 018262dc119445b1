//! The transport pump: what to do with each message of the socket and each
//! frame of the outbound queue.
//!
//! The pump owns the socket. It decodes the texts that come in and hands the
//! frames to the session, and it encodes the frames that the session sends.
//! Reading the socket and the queue is left to the caller, and so is doing
//! what the pump says.

use vstd::prelude::*;
use crate::client::{CloseFrame, CloseFrameView, Error, ErrorView};
use crate::gateway::{
    DecodeError, Frame, FrameView, decode, decode_spec, decoded_view, document_of, encode,
};
use crate::json::json_text;

verus! {

/// How to take a well-formed event whose name is not known.
#[derive(Clone, Copy, Debug, PartialEq, Eq, Structural)]
pub enum ParseMode {
    /// As any other text that is no frame: the pump ends with the error.
    Strict,
    /// As an event of a later version of the protocol: the frame is passed
    /// over and the pump goes on.
    Lenient,
}

/// One message of the socket.
#[derive(Clone, Debug, PartialEq, Eq)]
pub enum SocketMessage {
    /// A text message.
    Text(String),
    /// The remote side closes the connection.
    Close(Option<CloseFrame>),
    /// A message of any other kind, with its description.
    Other(String),
}

/// The content of a [`SocketMessage`].
pub enum SocketMessageView {
    Text(Seq<char>),
    Close(Option<CloseFrameView>),
    Other(Seq<char>),
}

impl View for SocketMessage {
    type V = SocketMessageView;

    open spec fn view(&self) -> SocketMessageView {
        match self {
            SocketMessage::Text(text) => SocketMessageView::Text(text@),
            SocketMessage::Close(Some(frame)) => SocketMessageView::Close(Some(frame@)),
            SocketMessage::Close(None) => SocketMessageView::Close(None),
            SocketMessage::Other(description) => SocketMessageView::Other(description@),
        }
    }
}

/// What can happen to the pump.
#[derive(Clone, Debug, PartialEq, Eq)]
pub enum PumpEvent {
    /// The socket handed over a message.
    Socket(SocketMessage),
    /// The session sends a frame.
    Outbound(Frame),
    /// The session will send no more frames.
    OutboundClosed,
    /// The session takes no more frames.
    InboundClosed,
    /// The socket takes no more messages.
    WriteFailed,
}

/// The content of a [`PumpEvent`].
pub enum PumpEventView {
    Socket(SocketMessageView),
    Outbound(FrameView),
    OutboundClosed,
    InboundClosed,
    WriteFailed,
}

impl View for PumpEvent {
    type V = PumpEventView;

    open spec fn view(&self) -> PumpEventView {
        match self {
            PumpEvent::Socket(message) => PumpEventView::Socket(message@),
            PumpEvent::Outbound(frame) => PumpEventView::Outbound(frame@),
            PumpEvent::OutboundClosed => PumpEventView::OutboundClosed,
            PumpEvent::InboundClosed => PumpEventView::InboundClosed,
            PumpEvent::WriteFailed => PumpEventView::WriteFailed,
        }
    }
}

/// What the pump asks its caller to do.
#[derive(Debug, PartialEq, Eq)]
pub enum PumpAction {
    /// Hand the frame to the session.
    Forward(Frame),
    /// Pass the message over and go on.
    Skip,
    /// Write the text to the socket.
    Write(String),
    /// End the pump with this outcome.
    Finish(Result<(), Error>),
}

/// The content of a [`PumpAction`].
pub enum PumpActionView {
    Forward(FrameView),
    Skip,
    Write(Seq<char>),
    Finish(Result<(), ErrorView>),
}

impl View for PumpAction {
    type V = PumpActionView;

    open spec fn view(&self) -> PumpActionView {
        match self {
            PumpAction::Forward(frame) => PumpActionView::Forward(frame@),
            PumpAction::Skip => PumpActionView::Skip,
            PumpAction::Write(text) => PumpActionView::Write(text@),
            PumpAction::Finish(Ok(())) => PumpActionView::Finish(Ok(())),
            PumpAction::Finish(Err(error)) => PumpActionView::Finish(Err(error@)),
        }
    }
}

/// What to do with a text of the socket, given what its decoding gave: a
/// frame goes on to the session; a well-formed event of an unknown name is
/// passed over where the mode is lenient; any other failure ends the pump.
pub open spec fn after_decoding(decoded: Result<FrameView, DecodeError>, mode: ParseMode)
    -> PumpActionView {
    match decoded {
        Ok(frame) => PumpActionView::Forward(frame),
        Err(error) => if error == DecodeError::UnknownEvent && mode == ParseMode::Lenient {
            PumpActionView::Skip
        } else {
            PumpActionView::Finish(Err(ErrorView::Serialization(error)))
        },
    }
}

/// What to do when `event` happens to the pump.
pub open spec fn pump_step_of(event: PumpEventView, mode: ParseMode) -> PumpActionView {
    match event {
        PumpEventView::Socket(SocketMessageView::Text(text)) => after_decoding(
            decode_spec(text),
            mode,
        ),
        PumpEventView::Socket(SocketMessageView::Close(frame)) => PumpActionView::Finish(
            Err(ErrorView::SocketClose(frame)),
        ),
        PumpEventView::Socket(SocketMessageView::Other(description)) => PumpActionView::Finish(
            Err(ErrorView::ExpectationFailed("Text or Close frame"@, description)),
        ),
        PumpEventView::Outbound(frame) => PumpActionView::Write(json_text(document_of(frame))),
        PumpEventView::OutboundClosed => PumpActionView::Finish(Ok(())),
        PumpEventView::InboundClosed => PumpActionView::Finish(Ok(())),
        PumpEventView::WriteFailed => PumpActionView::Finish(Ok(())),
    }
}

/// An event of an unknown name never ends a lenient pump, and always ends a
/// strict one; no other failure of the decoding is ever passed over.
pub proof fn lemma_only_unknown_events_are_skipped(
    decoded: Result<FrameView, DecodeError>,
    mode: ParseMode,
)
    ensures
        after_decoding(decoded, mode) is Skip <==> decoded == Err::<FrameView, DecodeError>(
            DecodeError::UnknownEvent,
        ) && mode == ParseMode::Lenient,
        decoded is Err && !(after_decoding(decoded, mode) is Skip) ==> after_decoding(
            decoded,
            mode,
        ) == PumpActionView::Finish(Err(ErrorView::Serialization(decoded->Err_0))),
{
}

/// The transport pump of one connection.
#[derive(Clone, Copy, Debug, PartialEq, Eq, Structural)]
pub struct TransportPump {
    pub mode: ParseMode,
}

impl TransportPump {
    /// A pump that takes unknown events as `mode` says.
    pub fn new(mode: ParseMode) -> (pump: TransportPump)
        ensures
            pump.mode == mode,
    {
        TransportPump { mode }
    }

    /// What to do with a text of the socket, given what its decoding gave.
    pub fn after_decoding(&self, decoded: Result<Frame, DecodeError>) -> (action: PumpAction)
        ensures
            action@ == after_decoding(decoded_view(decoded), self.mode),
    {
        match decoded {
            Ok(frame) => PumpAction::Forward(frame),
            Err(DecodeError::UnknownEvent) => match self.mode {
                ParseMode::Lenient => PumpAction::Skip,
                ParseMode::Strict => PumpAction::Finish(
                    Err(Error::from_decode_error(DecodeError::UnknownEvent)),
                ),
            },
            Err(error) => PumpAction::Finish(Err(Error::from_decode_error(error))),
        }
    }

    /// Takes what happened and says what to do next. A frame of the outbound
    /// queue has to be one that a client may send.
    pub fn step(&self, event: PumpEvent) -> (action: PumpAction)
        requires
            event matches PumpEvent::Outbound(frame) ==> !(frame is Event),
        ensures
            action@ == pump_step_of(event@, self.mode),
    {
        match event {
            PumpEvent::Socket(SocketMessage::Text(text)) => self.after_decoding(
                decode(text.as_str()),
            ),
            PumpEvent::Socket(SocketMessage::Close(frame)) => PumpAction::Finish(
                Err(Error::SocketClose(frame)),
            ),
            PumpEvent::Socket(SocketMessage::Other(description)) => PumpAction::Finish(
                Err(Error::expectation_failed("Text or Close frame", description)),
            ),
            PumpEvent::Outbound(frame) => PumpAction::Write(encode(&frame)),
            PumpEvent::OutboundClosed | PumpEvent::InboundClosed | PumpEvent::WriteFailed => {
                PumpAction::Finish(Ok(()))
            },
        }
    }
}

} // verus!
