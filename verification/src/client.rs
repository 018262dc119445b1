//! What a client of the service is made of apart from its connections: the
//! hosts it talks to, and the errors that end a session or a request.

use vstd::prelude::*;
use vstd::string::*;
use crate::gateway::{DecodeError, Frame, FrameView};
use crate::http::{Method, PathInfo, Request, RequestBodyInfo, RequestInfo, request_of};
use crate::json::JsonValue;
use crate::session::{Session, SessionState};

verus! {

/// How many frames each of the two queues between the transport and the
/// session holds before its producer has to wait.
pub const QUEUE_CAPACITY: usize = 5;

/// Why the remote side closed the socket.
#[derive(Clone, Debug, PartialEq, Eq)]
pub struct CloseFrame {
    pub code: u16,
    pub reason: String,
}

/// The content of a [`CloseFrame`].
pub struct CloseFrameView {
    pub code: u16,
    pub reason: Seq<char>,
}

impl View for CloseFrame {
    type V = CloseFrameView;

    open spec fn view(&self) -> CloseFrameView {
        CloseFrameView { code: self.code, reason: self.reason@ }
    }
}

/// What ends a session or a request.
#[derive(Clone, Debug, PartialEq, Eq)]
pub enum Error {
    /// The protocol asked for one thing and another came: what was expected,
    /// and a description of what came.
    ExpectationFailed(&'static str, String),
    /// The remote side closed the socket.
    SocketClose(Option<CloseFrame>),
    /// A request to the service failed; the text says how.
    HTTP(String),
    /// A text from the gateway is no frame.
    Serialization(DecodeError),
    /// A queue between the transport and the session is gone.
    InternalChannel,
}

/// The content of an [`Error`].
pub enum ErrorView {
    ExpectationFailed(Seq<char>, Seq<char>),
    SocketClose(Option<CloseFrameView>),
    HTTP(Seq<char>),
    Serialization(DecodeError),
    InternalChannel,
}

impl View for Error {
    type V = ErrorView;

    open spec fn view(&self) -> ErrorView {
        match self {
            Error::ExpectationFailed(expected, got) => ErrorView::ExpectationFailed(
                expected@,
                got@,
            ),
            Error::SocketClose(Some(frame)) => ErrorView::SocketClose(Some(frame@)),
            Error::SocketClose(None) => ErrorView::SocketClose(None),
            Error::HTTP(text) => ErrorView::HTTP(text@),
            Error::Serialization(error) => ErrorView::Serialization(*error),
            Error::InternalChannel => ErrorView::InternalChannel,
        }
    }
}

/// The text that `{:?}` writes for a frame.
pub uninterp spec fn frame_debug(frame: FrameView) -> Seq<char>;

/// Describes a frame with `format!("{:?}", ..)`, that is through the `Debug`
/// that the frame and its parts derive. The contract claims that the text
/// depends on the frame's content alone: it is the text named
/// [`frame_debug`].
#[verifier::external_body]
pub(crate) fn describe(frame: &Frame) -> (text: String)
    ensures
        text@ == frame_debug(frame@),
{
    format!("{:?}", frame)
}

impl Error {
    /// The error for something that came where `expected` was due.
    pub fn expectation_failed(expected: &'static str, got: String) -> (error: Error)
        ensures
            error@ == ErrorView::ExpectationFailed(expected@, got@),
    {
        Error::ExpectationFailed(expected, got)
    }

    /// The error for a frame that came where `expected` was due.
    pub fn unexpected_frame(expected: &'static str, frame: &Frame) -> (error: Error)
        ensures
            error@ == ErrorView::ExpectationFailed(expected@, frame_debug(frame@)),
    {
        Error::expectation_failed(expected, describe(frame))
    }

    /// The error for a text from the gateway that is no frame.
    pub fn from_decode_error(error: DecodeError) -> (wrapped: Error)
        ensures
            wrapped@ == ErrorView::Serialization(error),
    {
        Error::Serialization(error)
    }
}

/// The hosts that a client talks to.
#[derive(Clone, Debug, PartialEq, Eq)]
pub struct Domains {
    /// The host of the REST service.
    pub api: String,
    /// The host of the gateway.
    pub gateway: String,
}

/// A user of the service as its token stands for it, and the hosts on which
/// the service is reached.
#[derive(Clone, Debug, PartialEq, Eq)]
pub struct Client {
    pub token: String,
    pub domains: Domains,
}

/// The document that says what a message holds.
pub open spec fn content_document(content: Seq<char>) -> JsonValue {
    JsonValue::Object(seq![("content"@, JsonValue::Text(content))])
}

impl Client {
    /// A client of the official service.
    pub fn new(token: String) -> (client: Client)
        ensures
            client.token@ == token@,
            client.domains.api@ == "api.hiven.io"@,
            client.domains.gateway@ == "swarm-dev.hiven.io"@,
    {
        Client {
            token,
            domains: Domains {
                api: String::from_str("api.hiven.io"),
                gateway: String::from_str("swarm-dev.hiven.io"),
            },
        }
    }

    /// A client of a service on hosts of one's own choosing.
    pub fn new_at(token: String, api_base: String, gateway_base: String) -> (client: Client)
        ensures
            client.token@ == token@,
            client.domains.api@ == api_base@,
            client.domains.gateway@ == gateway_base@,
    {
        Client { token, domains: Domains { api: api_base, gateway: gateway_base } }
    }

    /// The address of the gateway's socket.
    pub fn gateway_url(&self) -> (url: String)
        ensures
            url@ == "wss://"@ + self.domains.gateway@ + "/socket"@,
    {
        let mut url = String::from_str("wss://");
        url.append(self.domains.gateway.as_str());
        url.append("/socket");
        url
    }

    /// A session that logs in with the client's token.
    pub fn new_session(&self) -> (session: Session)
        ensures
            session.state_of() == SessionState::AwaitingHello,
            session.token_of() == self.token@,
    {
        Session::new(self.token.clone())
    }

    /// The request that posts a message in a room.
    pub fn send_message(&self, room: u64, content: String) -> (request: Request)
        ensures
            request@ == request_of(
                self.domains.api@,
                PathInfo::MessageSend { channel_id: room },
                self.token@,
                Method::Post,
                content_document(content@),
            ),
    {
        RequestInfo {
            token: self.token.clone(),
            path: PathInfo::MessageSend { channel_id: room },
            body: RequestBodyInfo::MessageSend { content },
        }.request(self.domains.api.as_str())
    }

    /// The request that replaces what a message holds.
    pub fn edit_message(&self, room: u64, message: u64, content: String) -> (request: Request)
        ensures
            request@ == request_of(
                self.domains.api@,
                PathInfo::MessageEditDelete { channel_id: room, message_id: message },
                self.token@,
                Method::Patch,
                content_document(content@),
            ),
    {
        RequestInfo {
            token: self.token.clone(),
            path: PathInfo::MessageEditDelete { channel_id: room, message_id: message },
            body: RequestBodyInfo::MessageSend { content },
        }.request(self.domains.api.as_str())
    }

    /// The request that deletes a message.
    pub fn delete_message(&self, room: u64, message: u64) -> (request: Request)
        ensures
            request@ == request_of(
                self.domains.api@,
                PathInfo::MessageEditDelete { channel_id: room, message_id: message },
                self.token@,
                Method::Delete,
                JsonValue::Null,
            ),
    {
        RequestInfo {
            token: self.token.clone(),
            path: PathInfo::MessageEditDelete { channel_id: room, message_id: message },
            body: RequestBodyInfo::MessageDelete,
        }.request(self.domains.api.as_str())
    }

    /// The request that shows the user as typing in a room.
    pub fn trigger_typing(&self, room: u64) -> (request: Request)
        ensures
            request@ == request_of(
                self.domains.api@,
                PathInfo::TypingTrigger { channel_id: room },
                self.token@,
                Method::Post,
                JsonValue::Object(seq![]),
            ),
    {
        RequestInfo {
            token: self.token.clone(),
            path: PathInfo::TypingTrigger { channel_id: room },
            body: RequestBodyInfo::TypingTrigger {  },
        }.request(self.domains.api.as_str())
    }
}

} // verus!
